//! Lists rooms.

use vstd::prelude::*;

use crate::endpoint::{AuthScheme, Metadata, Method};
use crate::admin::resources::room::Direction;
use crate::admin::rooms::Room;

verus! {

/// The method, rate limiting, authentication and path of this endpoint.
pub fn metadata() -> (m: Metadata)
    ensures
        m.describes(Method::Get, false, AuthScheme::AccessToken, "/_synapse/admin/v1/rooms"@),
{
    Metadata::new(Method::Get, false, AuthScheme::AccessToken, "/_synapse/admin/v1/rooms")
}

/// The request.
#[derive(Debug)]
pub struct Request {
    pub from: u64,
    pub limit: Option<u64>,
    pub order_by: OrderBy,
    pub direction: Direction,
    pub search_term: String,
}

/// The response.
#[derive(Debug)]
pub struct Response {
    pub rooms: Vec<Room>,
    pub offset: u64,
    /// Sent as `total_rooms`.
    pub total: u64,
    pub next_batch: Option<String>,
    pub prev_batch: Option<String>,
}

/// How to order the rooms.
#[derive(Debug, Clone, Copy, PartialEq, Eq, Structural)]
pub enum OrderBy {
    Name,
    CanonicalAlias,
    JoinedMembers,
    JoinedLocalMembers,
    Version,
    Creator,
    Encryption,
    Federatable,
    Public,
    JoinRules,
    GuestAccess,
    HistoryVisibility,
    StateEvents,
}

impl Default for OrderBy {
    fn default() -> (r: Self)
        ensures
            r == OrderBy::Name,
    {
        OrderBy::Name
    }
}

} // verus!
