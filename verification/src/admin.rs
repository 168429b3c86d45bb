//! The Synapse admin API.

pub mod client;
pub mod registration_tokens;
pub mod resources;
pub mod room;
pub mod rooms;
pub mod session;
pub mod user;
