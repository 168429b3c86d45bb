//! Sets the avatar of a user.

use vstd::prelude::*;

use crate::endpoint::{AuthScheme, Metadata, Method};

verus! {

/// The method, rate limiting, authentication and path of this endpoint.
pub fn metadata() -> (m: Metadata)
    ensures
        m.describes(Method::Put, true, AuthScheme::AccessToken, "/_matrix/client/v3/profile/:user_id/avatar_url"@),
{
    Metadata::new(Method::Put, true, AuthScheme::AccessToken, "/_matrix/client/v3/profile/:user_id/avatar_url")
}

/// The request.
#[derive(Debug)]
pub struct Request {
    pub user_id: String,
    pub avatar_url: String,
}

impl Request {
    /// The request.
    pub fn new(user_id: String, avatar_url: String) -> (r: Self)
        ensures
            r.user_id == user_id,
            r.avatar_url == avatar_url,
    {
        Self { user_id, avatar_url }
    }
}

/// The response.
#[derive(Debug)]
pub struct Response {}

} // verus!
