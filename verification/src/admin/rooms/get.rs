//! One room.

use vstd::prelude::*;

use crate::endpoint::{AuthScheme, Metadata, Method};
use crate::admin::rooms::Room;

verus! {

/// The method, rate limiting, authentication and path of this endpoint.
pub fn metadata() -> (m: Metadata)
    ensures
        m.describes(Method::Get, false, AuthScheme::AccessToken, "/_synapse/admin/v1/rooms/:room_id"@),
{
    Metadata::new(Method::Get, false, AuthScheme::AccessToken, "/_synapse/admin/v1/rooms/:room_id")
}

/// The request.
#[derive(Debug)]
pub struct Request {
    pub room_id: String,
}

impl Request {
    /// The request for the room `room_id`.
    pub fn new(room_id: String) -> (r: Self)
        ensures
            r.room_id == room_id,
    {
        Self { room_id }
    }
}

/// The response.
#[derive(Debug)]
pub struct Response {
    /// The whole body.
    pub room: Room,
}

} // verus!
