//! Deletes a room.

use vstd::prelude::*;

use crate::endpoint::{AuthScheme, Metadata, Method};

verus! {

/// The method, rate limiting, authentication and path of this endpoint.
pub fn metadata() -> (m: Metadata)
    ensures
        m.describes(Method::Delete, false, AuthScheme::AccessToken, "/_synapse/admin/v2/rooms/:room_id"@),
{
    Metadata::new(Method::Delete, false, AuthScheme::AccessToken, "/_synapse/admin/v2/rooms/:room_id")
}

/// The request.
#[derive(Debug)]
pub struct Request {
    pub room_id: String,
    /// Where to move the local users, if anywhere.
    pub new_room: Option<NewRoomParams>,
    pub block: bool,
    pub purge: bool,
    pub force_purge: bool,
}

/// The response.
#[derive(Debug)]
pub struct Response {
    pub delete_id: String,
}

/// The room that local users are moved to.
#[derive(Debug)]
pub struct NewRoomParams {
    /// The user ID of the new room's creator.
    pub creator: String,
    pub name: String,
    pub message: String,
}

} // verus!
