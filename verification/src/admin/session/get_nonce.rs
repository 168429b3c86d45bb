//! Fetches a registration nonce.

use vstd::prelude::*;

use crate::endpoint::{AuthScheme, Metadata, Method};

verus! {

/// The method, rate limiting, authentication and path of this endpoint.
pub fn metadata() -> (m: Metadata)
    ensures
        m.describes(Method::Get, false, AuthScheme::AccessToken, "/_synapse/admin/v1/register"@),
{
    Metadata::new(Method::Get, false, AuthScheme::AccessToken, "/_synapse/admin/v1/register")
}

/// The request.
#[derive(Debug)]
pub struct Request {}

/// The response.
#[derive(Debug)]
pub struct Response {
    pub nonce: String,
}

} // verus!
