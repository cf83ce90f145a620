[package]
name = "rustbolt_world"
version = "0.1.0"
edition = "2021"
publish = false

[dependencies]
miniz_oxide = "*"
wow_srp = { version = "*", features = ["tbc-header"] }
tokio = { version = "1", features = ["full"] }
rusqlite = "*"
r2d2 = "*"
r2d2_sqlite = "*"
chrono = "*"
log = "*"
parking_lot = "*"
parry3d = "*"

[dev-dependencies]
binrw = "*"
