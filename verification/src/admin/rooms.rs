//! Rooms as the admin API describes them.

pub mod delete_status;
pub mod get;

use vstd::prelude::*;

verus! {

/// A room.
#[derive(Debug)]
pub struct Room {
    pub room_id: String,
    pub canonical_alias: Option<String>,
    pub avatar: Option<String>,
    pub name: Option<String>,
    pub joined_members: u64,
    pub joined_local_members: u64,
    pub version: String,
    pub creator: String,
    pub encryption: Option<String>,
    pub federatable: bool,
    pub public: bool,
    pub join_rules: Option<String>,
    pub history_visibility: Option<String>,
    pub state_events: u64,
    pub room_type: Option<String>,
    pub details: Option<RoomDetails>,
}

/// Details of a room.
#[derive(Debug)]
pub struct RoomDetails {
    pub topic: Option<String>,
    pub forgotten: bool,
}

} // verus!
