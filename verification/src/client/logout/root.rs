//! Logs out the device of the access token.

use vstd::prelude::*;

use crate::endpoint::{AuthScheme, Metadata, Method};

verus! {

/// The method, rate limiting, authentication and path of this endpoint.
pub fn metadata() -> (m: Metadata)
    ensures
        m.describes(Method::Post, false, AuthScheme::AccessToken, "/_matrix/client/v3/logout"@),
{
    Metadata::new(Method::Post, false, AuthScheme::AccessToken, "/_matrix/client/v3/logout")
}

/// The request.
#[derive(Debug)]
pub struct Request {}

impl Request {
    /// The request.
    pub fn new() -> (r: Self)
        ensures
            r == (Request {}),
    {
        Self {  }
    }
}

/// The response.
#[derive(Debug)]
pub struct Response {}

} // verus!
