//! Registers an account.

use vstd::prelude::*;

use crate::endpoint::{AuthScheme, Metadata, Method};
use crate::client::uiaa::Auth;

verus! {

/// The method, rate limiting, authentication and path of this endpoint.
pub fn metadata() -> (m: Metadata)
    ensures
        m.describes(Method::Post, true, AuthScheme::Unauthenticated, "/_matrix/client/v3/register"@),
{
    Metadata::new(Method::Post, true, AuthScheme::Unauthenticated, "/_matrix/client/v3/register")
}

/// The request.
#[derive(Debug)]
pub struct Request {
    pub username: String,
    pub password: String,
    /// Sent as `initial_device_display_name`.
    pub device_name: Option<String>,
    pub refresh_token: Option<bool>,
    /// Authenticates this call itself, after an earlier call was answered with 401.
    pub auth: Option<Auth>,
}

impl Request {
    /// A registration request.
    pub fn new(username: String, password: String, device_name: Option<String>, refresh_token: Option<bool>, auth: Option<Auth>) -> (r: Self)
        ensures
            r.username == username,
            r.password == password,
            r.device_name == device_name,
            r.refresh_token == refresh_token,
            r.auth == auth,
    {
        Self { username, password, device_name, refresh_token, auth }
    }
}

/// The response.
#[derive(Debug)]
pub struct Response {
    pub access_token: Option<String>,
    pub device_id: Option<String>,
    pub expires_in_ms: Option<u64>,
    pub refresh_token: Option<String>,
    pub user_id: String,
}

} // verus!
