//! The room admin API: listing, inspecting and deleting rooms.
//!
//! Requests are authenticated with the access token of a server admin.

use vstd::prelude::*;
use vstd::string::*;

use crate::filter::RoomEventFilter;

verus! {

/// Handlers of the room admin API.
#[derive(Debug, Default)]
pub struct RoomService;

/// Which way to page through results.
#[derive(Debug, Clone, Copy, PartialEq, Eq, Structural)]
pub enum Direction {
    /// `f`
    Forward,
    /// `b`
    Backward,
}

impl Default for Direction {
    fn default() -> (r: Self)
        ensures
            r == Direction::Forward,
    {
        Direction::Forward
    }
}

/// How to order listed rooms.
#[derive(Debug, Clone, Copy, PartialEq, Eq, Structural)]
pub enum OrderBy {
    Name,
    CanonicalAlias,
    JoinedMembers,
    JoinedLocalMembers,
    Version,
    Creator,
    Encryption,
    Federatable,
    Public,
    JoinRules,
    GuestAccess,
    HistoryVisibility,
    StateEvents,
}

impl Default for OrderBy {
    fn default() -> (r: Self)
        ensures
            r == OrderBy::Name,
    {
        OrderBy::Name
    }
}

/// The query of the room list.
#[derive(Debug)]
pub struct ListRoomQuery {
    pub from: Option<u64>,
    pub limit: Option<u64>,
    pub order_by: OrderBy,
    pub direction: Direction,
    pub search_term: String,
}

impl Default for ListRoomQuery {
    fn default() -> (r: Self)
        ensures
            r.from is None,
            r.limit is None,
            r.order_by == OrderBy::Name,
            r.direction == Direction::Forward,
            r.search_term@.len() == 0,
    {
        ListRoomQuery {
            from: None,
            limit: None,
            order_by: OrderBy::Name,
            direction: Direction::Forward,
            search_term: String::new(),
        }
    }
}

/// The query of a room's messages.
#[derive(Debug)]
pub struct MessagesQuery {
    pub from: String,
    pub to: String,
    pub limit: Option<u64>,
    pub filter: Option<RoomEventFilter>,
    pub direction: Direction,
}

impl Default for MessagesQuery {
    fn default() -> (r: Self)
        ensures
            r.from@.len() == 0,
            r.to@.len() == 0,
            r.limit is None,
            r.filter is None,
            r.direction == Direction::Forward,
    {
        MessagesQuery {
            from: String::new(),
            to: String::new(),
            limit: None,
            filter: None,
            direction: Direction::Forward,
        }
    }
}

/// The query of the event closest to a timestamp.
#[derive(Debug)]
pub struct TimestampToEventQuery {
    pub ts: Option<u64>,
    pub direction: Direction,
}

impl Default for TimestampToEventQuery {
    fn default() -> (r: Self)
        ensures
            r.ts is None,
            r.direction == Direction::Forward,
    {
        TimestampToEventQuery {
            ts: None,
            direction: Direction::Forward,
        }
    }
}

/// The query of the context of an event.
#[derive(Debug)]
pub struct EventContextQuery {
    pub limit: Option<u64>,
    pub filter: Option<RoomEventFilter>,
}

impl Default for EventContextQuery {
    fn default() -> (r: Self)
        ensures
            r.limit is None,
            r.filter is None,
    {
        EventContextQuery {
            limit: None,
            filter: None,
        }
    }
}

/// The room that replaces a deleted one.
#[derive(Debug)]
pub struct ReplaceRoomQuery {
    /// The user ID of the new room's creator.
    pub admin: String,
    pub room_name: String,
    pub message: String,
}

/// The query of a room deletion.
#[derive(Debug)]
pub struct DeleteQuery {
    pub new_room: Option<ReplaceRoomQuery>,
    pub block: bool,
    pub purge: bool,
}

impl Default for DeleteQuery {
    fn default() -> (r: Self)
        ensures
            r.new_room is None,
            !r.block,
            !r.purge,
    {
        DeleteQuery {
            new_room: None,
            block: false,
            purge: false,
        }
    }
}

/// The details of a room.
#[derive(Debug)]
pub struct Room {
    /// The room ID, e.g. `!room:example.com`.
    pub room_id: String,
    pub name: Option<String>,
    pub canonical_alias: Option<String>,
    pub joined_members: u64,
    pub joined_local_members: u64,
    pub version: Option<String>,
    pub creator: Option<String>,
    pub encryption: Option<String>,
    pub federatable: bool,
    pub public: bool,
    pub join_rules: Option<String>,
    pub guest_access: Option<String>,
    pub history_visibility: Option<String>,
    pub state_events: u64,
    pub room_type: Option<String>,
    pub details: Option<RoomDetails>,
}

/// The details only the single-room query gives.
#[derive(Debug)]
pub struct RoomDetails {
    pub avatar: Option<String>,
    pub topic: Option<String>,
    pub joined_local_devices: u64,
    pub forgotten: bool,
}

/// A page of the room list.
#[derive(Debug)]
pub struct ListRoomResponse {
    pub rooms: Vec<Room>,
    pub offset: Option<u64>,
    pub total_rooms: Option<u64>,
    pub prev_batch: Option<String>,
    pub next_batch: Option<String>,
}

/// The members of a room, by user ID.
#[derive(Debug)]
pub struct MembersResponse {
    pub members: Vec<String>,
    pub total: u64,
}

/// A state event of a room.
#[derive(Debug)]
pub struct State {
    pub kind: String,
    pub state_key: String,
    pub etc: Option<bool>,
}

/// The state of a room.
#[derive(Debug)]
pub struct StateResponse {
    pub state: Vec<State>,
}

/// A page of a room's messages; events by their JSON text.
#[derive(Debug)]
pub struct GetEventsResponse {
    pub chunk: String,
    pub start: String,
    pub end: String,
    pub state: Option<Vec<State>>,
}

/// The event closest to a timestamp.
#[derive(Debug)]
pub struct TimestampToEventResponse {
    pub event_id: String,
    pub origin_server_ts: u64,
}

/// A forward extremity of a room.
#[derive(Debug)]
pub struct ForwardExtremities {
    pub event_id: String,
    pub state_group: u64,
    pub depth: u64,
    pub received_ts: u64,
}

/// The forward extremities of a room.
#[derive(Debug)]
pub struct CheckForwardExtremitiesResponse {
    pub count: u64,
    pub result: Vec<ForwardExtremities>,
}

/// How many forward extremities were deleted.
#[derive(Debug)]
pub struct DeleteForwardExtremitiesResponse {
    pub deleted: u64,
}

/// The context of an event; events by their JSON text.
#[derive(Debug)]
pub struct EventContextResponse {
    pub start: String,
    pub end: String,
    pub events_before: Vec<String>,
    pub event: String,
    pub events_after: Vec<String>,
    pub state: Vec<String>,
}

/// What a room deletion did.
#[derive(Debug)]
pub struct DeleteRoomResponse {
    pub kicked_users: Vec<String>,
    pub failed_to_kick_users: Vec<String>,
    pub local_aliases: Vec<String>,
    pub new_room_id: Option<String>,
}

impl RoomService {
    /// The path of the room list.
    pub fn get_all_path() -> (r: String)
        ensures
            r@ == "/_synapse/admin/v1/rooms"@,
    {
        "/_synapse/admin/v1/rooms".to_owned()
    }

    /// The path of a room's details: `/_synapse/admin/v1/rooms/{room_id}`.
    pub fn get_one_path(room_id: &str) -> (r: String)
        ensures
            r@ == "/_synapse/admin/v1/rooms/"@ + room_id@,
    {
        let mut p = "/_synapse/admin/v1/rooms/".to_owned();
        p.append(room_id);
        p
    }

    /// The path of a room's members.
    pub fn get_members_path(room_id: &str) -> (r: String)
        ensures
            r@ == "/_synapse/admin/v1/rooms/"@ + room_id@ + "/members"@,
    {
        let mut p = "/_synapse/admin/v1/rooms/".to_owned();
        p.append(room_id);
        p.append("/members");
        p
    }

    /// The path of a room's state.
    pub fn get_state_path(room_id: &str) -> (r: String)
        ensures
            r@ == "/_synapse/admin/v1/rooms/"@ + room_id@ + "/state"@,
    {
        let mut p = "/_synapse/admin/v1/rooms/".to_owned();
        p.append(room_id);
        p.append("/state");
        p
    }

    /// The path that finds the event closest to a timestamp.
    pub fn get_timestamp_to_event_path(room_id: &str) -> (r: String)
        ensures
            r@ == "/_synapse/admin/v1/rooms/"@ + room_id@ + "/timestamp_to_event"@,
    {
        let mut p = "/_synapse/admin/v1/rooms/".to_owned();
        p.append(room_id);
        p.append("/timestamp_to_event");
        p
    }

    /// The path of a room's forward extremities, to check or to delete.
    pub fn forward_extremities_path(room_id: &str) -> (r: String)
        ensures
            r@ == "/_synapse/admin/v1/rooms/"@ + room_id@ + "/forward_extremities"@,
    {
        let mut p = "/_synapse/admin/v1/rooms/".to_owned();
        p.append(room_id);
        p.append("/forward_extremities");
        p
    }

    /// The path that deletes a room.
    pub fn delete_room_path(room_id: &str) -> (r: String)
        ensures
            r@ == "/_synapse/admin/v1/rooms/"@ + room_id@,
    {
        let mut p = "/_synapse/admin/v1/rooms/".to_owned();
        p.append(room_id);
        p
    }

    /// The path of a room's messages.
    pub fn get_room_events_path(room_id: &str) -> (r: String)
        ensures
            r@ == "/_synapse/admin/v1/rooms/"@ + room_id@ + "/messages"@,
    {
        let mut p = "/_synapse/admin/v1/rooms/".to_owned();
        p.append(room_id);
        p.append("/messages");
        p
    }

    /// The path of the context of an event.
    pub fn get_event_context_path(room_id: &str, event_id: &str) -> (r: String)
        ensures
            r@ == "/_synapse/admin/v1/rooms/"@ + room_id@ + "/context/"@ + event_id@,
    {
        let mut p = "/_synapse/admin/v1/rooms/".to_owned();
        p.append(room_id);
        p.append("/context/");
        p.append(event_id);
        p
    }
}

} // verus!
