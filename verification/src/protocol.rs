//! The world protocol: client messages, server messages and their payloads.
pub mod client;
pub mod packets;
pub mod server;
