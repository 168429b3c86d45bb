//! Leaves a room.

use vstd::prelude::*;

use crate::endpoint::{AuthScheme, Metadata, Method};

verus! {

/// The method, rate limiting, authentication and path of this endpoint.
pub fn metadata() -> (m: Metadata)
    ensures
        m.describes(Method::Post, true, AuthScheme::AccessToken, "/_matrix/client/v3/rooms/:room_id/leave"@),
{
    Metadata::new(Method::Post, true, AuthScheme::AccessToken, "/_matrix/client/v3/rooms/:room_id/leave")
}

/// The request.
#[derive(Debug)]
pub struct Request {
    pub room_id: String,
    pub reason: Option<String>,
}

impl Request {
    /// A request to leave.
    pub fn new(room_id: String, reason: Option<String>) -> (r: Self)
        ensures
            r.room_id == room_id,
            r.reason == reason,
    {
        Self { room_id, reason }
    }
}

/// The response.
#[derive(Debug)]
pub struct Response {
    pub room_id: String,
}

} // verus!
