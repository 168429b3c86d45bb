//! Resolves a room alias.

use vstd::prelude::*;

use crate::endpoint::{AuthScheme, Metadata, Method};

verus! {

/// The method, rate limiting, authentication and path of this endpoint.
pub fn metadata() -> (m: Metadata)
    ensures
        m.describes(Method::Get, false, AuthScheme::Unauthenticated, "/_matrix/client/v3/directory/room/{room_alias}"@),
{
    Metadata::new(Method::Get, false, AuthScheme::Unauthenticated, "/_matrix/client/v3/directory/room/{room_alias}")
}

/// The request.
#[derive(Debug)]
pub struct Request {
    pub room_alias: String,
}

impl Request {
    /// The request for `room_alias`.
    pub fn new(room_alias: String) -> (r: Self)
        ensures
            r.room_alias == room_alias,
    {
        Self { room_alias }
    }
}

/// The response.
#[derive(Debug)]
pub struct Response {
    pub room_id: String,
    pub servers: Vec<String>,
}

} // verus!
