//! Profiles of users.

pub mod avatar_url;
pub mod display_name;

use vstd::prelude::*;

use crate::endpoint::{AuthScheme, Metadata, Method};

verus! {

/// The method, rate limiting, authentication and path of this endpoint.
pub fn metadata() -> (m: Metadata)
    ensures
        m.describes(Method::Get, false, AuthScheme::Unauthenticated, "/_matrix/client/v3/profile/:user_id"@),
{
    Metadata::new(Method::Get, false, AuthScheme::Unauthenticated, "/_matrix/client/v3/profile/:user_id")
}

/// The request.
#[derive(Debug)]
pub struct Request {
    pub user_id: String,
}

impl Request {
    /// The request for the profile of `user_id`.
    pub fn new(user_id: String) -> (r: Self)
        ensures
            r.user_id == user_id,
    {
        Self { user_id }
    }
}

/// The response.
#[derive(Debug)]
pub struct Response {
    pub displayname: Option<String>,
    pub avatar_url: Option<String>,
}

} // verus!
