//! The client-server API.

pub mod account;
pub mod create_room;
pub mod directory;
pub mod login;
pub mod logout;
pub mod membership;
pub mod profile;
pub mod register;
pub mod resources;
pub mod room;
pub mod rooms;
pub mod session;
pub mod uiaa;
