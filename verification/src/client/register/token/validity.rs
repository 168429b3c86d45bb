//! Whether a registration token is valid.

use vstd::prelude::*;

use crate::endpoint::{AuthScheme, Metadata, Method};

verus! {

/// The method, rate limiting, authentication and path of this endpoint.
pub fn metadata() -> (m: Metadata)
    ensures
        m.describes(Method::Get, true, AuthScheme::Unauthenticated, "/_matrix/client/v1/register/m.login.registration_token/validity"@),
{
    Metadata::new(Method::Get, true, AuthScheme::Unauthenticated, "/_matrix/client/v1/register/m.login.registration_token/validity")
}

/// The request.
#[derive(Debug)]
pub struct Request {
    /// Sent in the query.
    pub token: String,
}

impl Request {
    /// The request.
    pub fn new(token: String) -> (r: Self)
        ensures
            r.token == token,
    {
        Self { token }
    }
}

/// The response.
#[derive(Debug)]
pub struct Response {
    pub valid: bool,
}

} // verus!
