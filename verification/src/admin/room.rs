//! Room endpoints of the admin API.

pub mod delete_room;
pub mod get_members;
pub mod get_rooms;
pub mod get_state;
