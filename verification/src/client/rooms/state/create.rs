//! Sets a state event.

use vstd::prelude::*;

use crate::endpoint::{AuthScheme, Metadata, Method};

verus! {

/// The method, rate limiting, authentication and path of this endpoint.
pub fn metadata() -> (m: Metadata)
    ensures
        m.describes(Method::Put, true, AuthScheme::AccessToken, "/_matrix/client/v3/rooms/{room_id}/state/{event_type}/{state_key}"@),
{
    Metadata::new(Method::Put, true, AuthScheme::AccessToken, "/_matrix/client/v3/rooms/{room_id}/state/{event_type}/{state_key}")
}

/// The request.
#[derive(Debug)]
pub struct Request {
    pub event_type: String,
    pub room_id: String,
    pub state_key: String,
    /// The JSON text of the content.
    pub content: String,
}

impl Request {
    /// A request for the event `event_type` under `state_key`, or the empty key.
    pub fn new(event_type: String, room_id: String, state_key: Option<String>, content: String) -> (r: Self)
        ensures
            r.event_type == event_type,
            r.room_id == room_id,
            r.content == content,
            state_key matches Some(k) ==> r.state_key == k,
            state_key is None ==> r.state_key@.len() == 0,
    {
        let state_key = match state_key {
            Some(k) => k,
            None => String::new(),
        };
        Self { event_type, room_id, state_key, content }
    }
}

/// The response.
#[derive(Debug)]
pub struct Response {
    pub event_id: String,
}

} // verus!
