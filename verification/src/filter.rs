//! Filters that select the events a server returns.

use vstd::prelude::*;
use vstd::string::*;

verus! {

/// The format events are returned in.
#[derive(Debug, Clone, Copy, PartialEq, Eq, Structural)]
pub enum EventFormat {
    Client,
    Federation,
}

impl Default for EventFormat {
    fn default() -> (r: Self)
        ensures
            r == EventFormat::Client,
    {
        EventFormat::Client
    }
}

/// A filter over all kinds of events.
#[derive(Debug)]
pub struct Filter {
    pub account: Option<EventFilter>,
    pub event_fields: Vec<String>,
    pub event_format: Option<EventFormat>,
    pub presence: Option<EventFilter>,
    pub room: Option<RoomFilter>,
}

impl Default for Filter {
    fn default() -> (r: Self)
        ensures
            r.account is None,
            r.event_fields@.len() == 0,
            r.event_format is None,
            r.presence is None,
            r.room is None,
    {
        Filter {
            account: None,
            event_fields: Vec::new(),
            event_format: None,
            presence: None,
            room: None,
        }
    }
}

impl Filter {
    /// A filter that only narrows the events of room timelines, by `filter`.
    pub fn room_events(filter: RoomEventFilter) -> (r: Self)
        ensures
            r.account is None,
            r.event_fields@.len() == 0,
            r.event_format is None,
            r.presence is None,
            r.room matches Some(room) && room.timeline == Some(filter) && room.account_data is None
                && room.ephemeral is None && !room.include_leave && room.not_rooms@.len() == 0
                && room.rooms@.len() == 0 && room.state is None,
    {
        let room = RoomFilter { timeline: Some(filter), ..Default::default() };
        Self { room: Some(room), ..Default::default() }
    }
}

/// A filter over non-room events.
#[derive(Debug)]
pub struct EventFilter {
    pub limit: Option<u64>,
    /// Senders to leave out, by user ID.
    pub not_senders: Vec<String>,
    /// Event types to leave out.
    pub not_types: Vec<String>,
    /// Senders to keep, by user ID.
    pub senders: Vec<String>,
    /// Event types to keep.
    pub types: Vec<String>,
}

impl Default for EventFilter {
    fn default() -> (r: Self)
        ensures
            r.limit is None,
            r.not_senders@.len() == 0,
            r.not_types@.len() == 0,
            r.senders@.len() == 0,
            r.types@.len() == 0,
    {
        EventFilter {
            limit: None,
            not_senders: Vec::new(),
            not_types: Vec::new(),
            senders: Vec::new(),
            types: Vec::new(),
        }
    }
}

/// A filter over the events of rooms.
#[derive(Debug)]
pub struct RoomFilter {
    pub account_data: Option<RoomEventFilter>,
    pub ephemeral: Option<RoomEventFilter>,
    pub include_leave: bool,
    /// Rooms to leave out, by room ID.
    pub not_rooms: Vec<String>,
    /// Rooms to keep, by room ID.
    pub rooms: Vec<String>,
    pub state: Option<StateFilter>,
    pub timeline: Option<RoomEventFilter>,
}

impl Default for RoomFilter {
    fn default() -> (r: Self)
        ensures
            r.account_data is None,
            r.ephemeral is None,
            !r.include_leave,
            r.not_rooms@.len() == 0,
            r.rooms@.len() == 0,
            r.state is None,
            r.timeline is None,
    {
        RoomFilter {
            account_data: None,
            ephemeral: None,
            include_leave: false,
            not_rooms: Vec::new(),
            rooms: Vec::new(),
            state: None,
            timeline: None,
        }
    }
}

/// A filter over the events of a room.
#[derive(Debug)]
pub struct RoomEventFilter {
    pub limit: Option<u64>,
    pub not_rooms: Vec<String>,
    pub not_senders: Vec<String>,
    pub not_types: Vec<String>,
    pub rooms: Vec<String>,
    pub senders: Vec<String>,
    pub types: Vec<String>,
    /// Sent as `contains_url`.
    pub include_urls: Option<bool>,
    pub include_redundant_members: bool,
    pub lazy_load_members: bool,
    pub unread_thread_notifications: bool,
}

impl Default for RoomEventFilter {
    fn default() -> (r: Self)
        ensures
            r.limit is None,
            r.not_rooms@.len() == 0,
            r.not_senders@.len() == 0,
            r.not_types@.len() == 0,
            r.rooms@.len() == 0,
            r.senders@.len() == 0,
            r.types@.len() == 0,
            r.include_urls is None,
            !r.include_redundant_members,
            !r.lazy_load_members,
            !r.unread_thread_notifications,
    {
        RoomEventFilter {
            limit: None,
            not_rooms: Vec::new(),
            not_senders: Vec::new(),
            not_types: Vec::new(),
            rooms: Vec::new(),
            senders: Vec::new(),
            types: Vec::new(),
            include_urls: None,
            include_redundant_members: false,
            lazy_load_members: false,
            unread_thread_notifications: false,
        }
    }
}

/// A filter over the state events of a room.
#[derive(Debug)]
pub struct StateFilter {
    pub limit: Option<u64>,
    pub not_rooms: Vec<String>,
    pub not_senders: Vec<String>,
    pub not_types: Vec<String>,
    pub rooms: Vec<String>,
    pub senders: Vec<String>,
    pub types: Vec<String>,
    /// Sent as `contains_url`.
    pub include_urls: Option<bool>,
    pub include_redundant_members: bool,
    pub lazy_load_members: bool,
    pub unread_thread_notifications: bool,
}

impl Default for StateFilter {
    fn default() -> (r: Self)
        ensures
            r.limit is None,
            r.not_rooms@.len() == 0,
            r.not_senders@.len() == 0,
            r.not_types@.len() == 0,
            r.rooms@.len() == 0,
            r.senders@.len() == 0,
            r.types@.len() == 0,
            r.include_urls is None,
            !r.include_redundant_members,
            !r.lazy_load_members,
            !r.unread_thread_notifications,
    {
        StateFilter {
            limit: None,
            not_rooms: Vec::new(),
            not_senders: Vec::new(),
            not_types: Vec::new(),
            rooms: Vec::new(),
            senders: Vec::new(),
            types: Vec::new(),
            include_urls: None,
            include_redundant_members: false,
            lazy_load_members: false,
            unread_thread_notifications: false,
        }
    }
}

/// Handlers of the filter API.
#[derive(Debug)]
pub struct FilterService;

/// The ID under which a filter was stored.
#[derive(Debug)]
pub struct FilterResponse {
    pub filter_id: String,
}

impl FilterService {
    /// The path that uploads a filter for a user.
    pub fn create_path(user_id: &str) -> (r: String)
        ensures
            r@ == "/_matrix/client/v3/user/"@ + user_id@ + "/filter"@,
    {
        let mut p = "/_matrix/client/v3/user/".to_owned();
        p.append(user_id);
        p.append("/filter");
        p
    }

    /// The path of one of a user's filters.
    pub fn get_path(user_id: &str, filter_id: &str) -> (r: String)
        ensures
            r@ == "/_matrix/client/v3/user/"@ + user_id@ + "/filter/"@ + filter_id@,
    {
        let mut p = "/_matrix/client/v3/user/".to_owned();
        p.append(user_id);
        p.append("/filter/");
        p.append(filter_id);
        p
    }

}

} // verus!
