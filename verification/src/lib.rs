//! The world server of a game realm: the messages it exchanges with game clients,
//! the session state it keeps, and the game rules that decide its answers.
pub mod codec;
pub mod constants;
pub mod entities;
pub mod game_objects;
pub mod gossip;
pub mod items;
pub mod login;
pub mod npcs;
pub mod protocol;
pub mod quests;
pub mod repositories;
pub mod responses;
pub mod session;
pub mod spell_targets;
pub mod wire;
