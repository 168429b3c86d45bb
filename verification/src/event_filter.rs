//! A filter over the events of a room, as the admin API takes it.

use vstd::prelude::*;

verus! {

/// A filter over the events of a room.
#[derive(Debug)]
pub struct RoomEventFilter {
    pub not_types: Vec<String>,
    /// Rooms to leave out, by room ID.
    pub not_rooms: Vec<String>,
    pub limit: Option<u64>,
    /// Rooms to keep, by room ID.
    pub rooms: Vec<String>,
    /// Senders to leave out, by user ID.
    pub not_senders: Vec<String>,
    /// Senders to keep, by user ID.
    pub senders: Vec<String>,
    pub types: Vec<String>,
    pub include_urls: Option<bool>,
    pub lazy_load_members: bool,
    pub unread_thread_notifications: bool,
}

impl Default for RoomEventFilter {
    fn default() -> (r: Self)
        ensures
            r.not_types@.len() == 0,
            r.not_rooms@.len() == 0,
            r.limit is None,
            r.rooms@.len() == 0,
            r.not_senders@.len() == 0,
            r.senders@.len() == 0,
            r.types@.len() == 0,
            r.include_urls is None,
            !r.lazy_load_members,
            !r.unread_thread_notifications,
    {
        RoomEventFilter {
            not_types: Vec::new(),
            not_rooms: Vec::new(),
            limit: None,
            rooms: Vec::new(),
            not_senders: Vec::new(),
            senders: Vec::new(),
            types: Vec::new(),
            include_urls: None,
            lazy_load_members: false,
            unread_thread_notifications: false,
        }
    }
}

} // verus!
