//! The state events of a room.

use vstd::prelude::*;

use crate::endpoint::{AuthScheme, Metadata, Method};

verus! {

/// The method, rate limiting, authentication and path of this endpoint.
pub fn metadata() -> (m: Metadata)
    ensures
        m.describes(Method::Get, false, AuthScheme::AccessToken, "/_synapse/admin/v1/rooms/:room_id/state"@),
{
    Metadata::new(Method::Get, false, AuthScheme::AccessToken, "/_synapse/admin/v1/rooms/:room_id/state")
}

/// The request.
#[derive(Debug)]
pub struct Request {
    pub room_id: String,
}

/// The response.
#[derive(Debug)]
pub struct Response {
    pub state: Vec<State>,
}

/// A state event.
#[derive(Debug)]
pub struct State {
    /// Sent as `type`.
    pub kind: String,
    pub state_key: String,
    pub etc: bool,
}

} // verus!
