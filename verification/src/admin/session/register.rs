//! Registers a user with a shared secret.

use vstd::prelude::*;

use crate::endpoint::{AuthScheme, Metadata, Method};

verus! {

/// The method, rate limiting, authentication and path of this endpoint.
pub fn metadata() -> (m: Metadata)
    ensures
        m.describes(Method::Get, false, AuthScheme::AccessToken, "/_synapse/admin/v1/register"@),
{
    Metadata::new(Method::Get, false, AuthScheme::AccessToken, "/_synapse/admin/v1/register")
}

/// The request.
#[derive(Debug)]
pub struct Request {
    pub nonce: String,
    pub username: String,
    pub password: String,
    pub displayname: String,
    pub admin: bool,
    /// The hex MAC of the request.
    pub hmac: String,
}

/// The response.
#[derive(Debug)]
pub struct Response {
    pub access_token: String,
    pub user_id: String,
    pub home_server: String,
    pub device_id: String,
}

} // verus!
