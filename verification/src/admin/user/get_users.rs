//! Lists user accounts.

use vstd::prelude::*;

use crate::endpoint::{AuthScheme, Metadata, Method};
use crate::admin::resources::room::Direction;
use crate::admin::user::User;

verus! {

/// The method, rate limiting, authentication and path of this endpoint.
pub fn metadata() -> (m: Metadata)
    ensures
        m.describes(Method::Get, false, AuthScheme::AccessToken, "/_synapse/admin/v2/users"@),
{
    Metadata::new(Method::Get, false, AuthScheme::AccessToken, "/_synapse/admin/v2/users")
}

/// The request.
#[derive(Debug)]
pub struct Request {
    pub user_id: Option<String>,
    pub name: Option<String>,
    pub admins: Option<bool>,
    pub deactivated: bool,
    pub limit: Option<u64>,
    pub from: u64,
    pub order_by: OrderBy,
    pub dir: Direction,
}

/// The response.
#[derive(Debug)]
pub struct Response {
    pub users: Vec<User>,
    pub next_token: String,
    pub total: u64,
}

/// How to order the users.
#[derive(Debug, Clone, Copy, PartialEq, Eq, Structural)]
pub enum OrderBy {
    Name,
    Admin,
    UserType,
    Deactivated,
    ShadowBanned,
    Displayname,
    AvatarUrl,
    CreationTs,
    LastSeenTs,
}

impl Default for OrderBy {
    fn default() -> (r: Self)
        ensures
            r == OrderBy::Name,
    {
        OrderBy::Name
    }
}

} // verus!
