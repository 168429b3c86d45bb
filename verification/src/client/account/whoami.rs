//! The owner of an access token.

use vstd::prelude::*;

use crate::endpoint::{AuthScheme, Metadata, Method};

verus! {

/// The method, rate limiting, authentication and path of this endpoint.
pub fn metadata() -> (m: Metadata)
    ensures
        m.describes(Method::Get, true, AuthScheme::AccessToken, "/_matrix/client/v3/account/whoami"@),
{
    Metadata::new(Method::Get, true, AuthScheme::AccessToken, "/_matrix/client/v3/account/whoami")
}

/// The request.
#[derive(Debug)]
pub struct Request {}

impl Request {
    /// The request.
    pub fn new() -> (r: Self)
        ensures
            r == (Request {}),
    {
        Self {  }
    }
}

/// The response.
#[derive(Debug)]
pub struct Response {
    pub device_id: String,
    pub user_id: String,
}

} // verus!
