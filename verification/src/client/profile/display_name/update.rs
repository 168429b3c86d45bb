//! Sets the display name of a user.

use vstd::prelude::*;

use crate::endpoint::{AuthScheme, Metadata, Method};

verus! {

/// The method, rate limiting, authentication and path of this endpoint.
pub fn metadata() -> (m: Metadata)
    ensures
        m.describes(Method::Put, true, AuthScheme::AccessToken, "/_matrix/client/v3/profile/:user_id/displayname"@),
{
    Metadata::new(Method::Put, true, AuthScheme::AccessToken, "/_matrix/client/v3/profile/:user_id/displayname")
}

/// The request.
#[derive(Debug)]
pub struct Request {
    pub user_id: String,
    /// Sent as `displayname`.
    pub display_name: String,
}

impl Request {
    /// The request.
    pub fn new(user_id: String, display_name: String) -> (r: Self)
        ensures
            r.user_id == user_id,
            r.display_name == display_name,
    {
        Self { user_id, display_name }
    }
}

/// The response.
#[derive(Debug)]
pub struct Response {}

} // verus!
