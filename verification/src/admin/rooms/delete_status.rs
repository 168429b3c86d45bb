//! The status of a room deletion.

use vstd::prelude::*;

use crate::endpoint::{AuthScheme, Metadata, Method};

verus! {

/// The method, rate limiting, authentication and path of this endpoint.
pub fn metadata() -> (m: Metadata)
    ensures
        m.describes(Method::Delete, false, AuthScheme::AccessToken, "/_synapse/admin/v2/rooms/:room_id/delete_status"@),
{
    Metadata::new(Method::Delete, false, AuthScheme::AccessToken, "/_synapse/admin/v2/rooms/:room_id/delete_status")
}

/// The request.
#[derive(Debug)]
pub struct Request {
    pub room_id: String,
}

/// The response.
#[derive(Debug)]
pub struct Response {}

} // verus!
