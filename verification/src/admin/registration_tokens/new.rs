//! Creates a registration token.

use vstd::prelude::*;

use crate::endpoint::{AuthScheme, Metadata, Method};

verus! {

/// The method, rate limiting, authentication and path of this endpoint.
pub fn metadata() -> (m: Metadata)
    ensures
        m.describes(Method::Post, false, AuthScheme::AccessToken, "/_synapse/admin/v1/register/new"@),
{
    Metadata::new(Method::Post, false, AuthScheme::AccessToken, "/_synapse/admin/v1/register/new")
}

/// The request.
#[derive(Debug)]
pub struct Request {
    pub token: String,
    pub uses_allowed: usize,
    pub expiry_time: usize,
}

impl Request {
    /// A token usable `uses_allowed` times, until `expiry_time`.
    pub fn new(token: String, uses_allowed: usize, expiry_time: usize) -> (r: Self)
        ensures
            r.token == token,
            r.uses_allowed == uses_allowed,
            r.expiry_time == expiry_time,
    {
        Self { token, uses_allowed, expiry_time }
    }
}

/// The response.
#[derive(Debug)]
pub struct Response {}

} // verus!
