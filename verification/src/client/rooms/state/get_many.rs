//! All state events of a room.

use vstd::prelude::*;

use crate::endpoint::{AuthScheme, Metadata, Method};

verus! {

/// The method, rate limiting, authentication and path of this endpoint.
pub fn metadata() -> (m: Metadata)
    ensures
        m.describes(Method::Get, true, AuthScheme::AccessToken, "/_matrix/client/v3/rooms/{room_id}/state"@),
{
    Metadata::new(Method::Get, true, AuthScheme::AccessToken, "/_matrix/client/v3/rooms/{room_id}/state")
}

/// The request.
#[derive(Debug)]
pub struct Request {
    pub room_id: String,
}

impl Request {
    /// The request.
    pub fn new(room_id: String) -> (r: Self)
        ensures
            r.room_id == room_id,
    {
        Self { room_id }
    }
}

/// The response.
#[derive(Debug)]
pub struct Response {
    /// JSON texts of the events; the whole body.
    pub event_id: Vec<String>,
}

} // verus!
