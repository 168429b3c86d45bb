//! Whether a user name is free.

use vstd::prelude::*;

use crate::endpoint::{AuthScheme, Metadata, Method};

verus! {

/// The method, rate limiting, authentication and path of this endpoint.
pub fn metadata() -> (m: Metadata)
    ensures
        m.describes(Method::Post, true, AuthScheme::Unauthenticated, "/_matrix/client/v3/register/available"@),
{
    Metadata::new(Method::Post, true, AuthScheme::Unauthenticated, "/_matrix/client/v3/register/available")
}

/// The request.
#[derive(Debug)]
pub struct Request {
    pub username: String,
}

impl Request {
    /// The request.
    pub fn new(username: &str) -> (r: Self)
        ensures
            r.username@ == username@,
    {
        Self { username: username.to_owned() }
    }
}

/// The response.
#[derive(Debug)]
pub struct Response {
    pub available: bool,
}

} // verus!
