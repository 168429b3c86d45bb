//! Joins a room.

use vstd::prelude::*;

use crate::endpoint::{AuthScheme, Metadata, Method};

verus! {

/// The method, rate limiting, authentication and path of this endpoint.
pub fn metadata() -> (m: Metadata)
    ensures
        m.describes(Method::Post, true, AuthScheme::AccessToken, "/_matrix/client/v3/join/:room_id_or_alias"@),
{
    Metadata::new(Method::Post, true, AuthScheme::AccessToken, "/_matrix/client/v3/join/:room_id_or_alias")
}

/// The request.
#[derive(Debug)]
pub struct Request {
    pub room_id_or_alias: String,
    /// Servers to join through, sent in the query.
    pub server_name: Vec<String>,
    pub reason: Option<String>,
}

impl Request {
    /// A request to join, through no server in particular.
    pub fn new(room_id_or_alias: String, reason: Option<String>) -> (r: Self)
        ensures
            r.room_id_or_alias == room_id_or_alias,
            r.reason == reason,
            r.server_name@.len() == 0,
    {
        Self { room_id_or_alias, reason, server_name: Vec::new() }
    }
}

/// The response.
#[derive(Debug)]
pub struct Response {
    pub room_id: String,
}

} // verus!
