//! Creates a room.

use vstd::prelude::*;

use crate::endpoint::{AuthScheme, Metadata, Method};
use crate::client::room::RoomVisibility;

verus! {

/// The method, rate limiting, authentication and path of this endpoint.
pub fn metadata() -> (m: Metadata)
    ensures
        m.describes(Method::Post, false, AuthScheme::AccessToken, "/_matrix/client/v3/createRoom"@),
{
    Metadata::new(Method::Post, false, AuthScheme::AccessToken, "/_matrix/client/v3/createRoom")
}

/// The request.
#[derive(Debug)]
pub struct Request {
    pub creation_content: Option<RoomCreationContent>,
    /// JSON texts of state events.
    pub initial_state: Vec<String>,
    pub invite: Vec<String>,
    pub is_direct: bool,
    pub name: Option<String>,
    /// The JSON text of power levels.
    pub power_override: Option<String>,
    /// Sent as `room_alias_name`.
    pub alias: Option<String>,
    pub topic: Option<String>,
    pub visibility: RoomVisibility,
}

impl Request {
    /// A request with these options.
    pub fn new(creation_content: Option<RoomCreationContent>, initial_state: Vec<String>, invite: Vec<String>, is_direct: bool, name: Option<String>, power_override: Option<String>, alias: Option<String>, topic: Option<String>, visibility: RoomVisibility) -> (r: Self)
        ensures
            r.creation_content == creation_content,
            r.initial_state == initial_state,
            r.invite == invite,
            r.is_direct == is_direct,
            r.name == name,
            r.power_override == power_override,
            r.alias == alias,
            r.topic == topic,
            r.visibility == visibility,
    {
        Self { creation_content, initial_state, invite, is_direct, name, power_override, alias, topic, visibility }
    }
}

/// The response.
#[derive(Debug)]
pub struct Response {
    pub room_id: String,
}

/// The content of the room's creation event.
#[derive(Debug)]
pub struct RoomCreationContent {
    /// Sent as `m.federate`.
    pub federate: bool,
    pub room_version: String,
    pub predecessor: Option<PreviousRoom>,
    /// The room type.
    pub kind: Option<String>,
}

/// The room that the new one continues.
#[derive(Debug)]
pub struct PreviousRoom {
    pub room_id: String,
    pub event_id: String,
}

} // verus!
