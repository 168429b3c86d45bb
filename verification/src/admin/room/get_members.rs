//! The members of a room.

use vstd::prelude::*;

use crate::endpoint::{AuthScheme, Metadata, Method};

verus! {

/// The method, rate limiting, authentication and path of this endpoint.
pub fn metadata() -> (m: Metadata)
    ensures
        m.describes(Method::Get, false, AuthScheme::AccessToken, "/_synapse/admin/v1/rooms/:room_id/members"@),
{
    Metadata::new(Method::Get, false, AuthScheme::AccessToken, "/_synapse/admin/v1/rooms/:room_id/members")
}

/// The request.
#[derive(Debug)]
pub struct Request {
    pub room_id: String,
}

/// The response.
#[derive(Debug)]
pub struct Response {
    /// User IDs.
    pub members: Vec<String>,
    pub total: u64,
}

} // verus!
