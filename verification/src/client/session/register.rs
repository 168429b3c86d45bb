//! Registers an account, asking for a refresh token.

use vstd::prelude::*;

use crate::endpoint::{AuthScheme, Metadata, Method};
use crate::client::uiaa::Auth;

verus! {

/// The method, rate limiting, authentication and path of this endpoint.
pub fn metadata() -> (m: Metadata)
    ensures
        m.describes(Method::Post, true, AuthScheme::Unauthenticated, "/_matrix/client/v3/register"@),
{
    Metadata::new(Method::Post, true, AuthScheme::Unauthenticated, "/_matrix/client/v3/register")
}

/// The request.
#[derive(Debug)]
pub struct Request {
    pub username: String,
    pub password: String,
    /// Sent as `initial_device_display_name` unless empty.
    pub device_name: String,
    pub refresh_token: Option<bool>,
    pub auth: Option<Auth>,
}

impl Request {
    /// A registration request that asks for a refresh token.
    pub fn new(username: &str, password: &str, device_name: &str, auth: Option<Auth>) -> (r: Self)
        ensures
            r.username@ == username@,
            r.password@ == password@,
            r.device_name@ == device_name@,
            r.refresh_token == Some(true),
            r.auth == auth,
    {
        Self { username: username.to_owned(), password: password.to_owned(), device_name: device_name.to_owned(), refresh_token: Some(true), auth }
    }
}

/// The response.
#[derive(Debug)]
pub struct Response {
    pub access_token: String,
    pub device_id: String,
    pub expires_in_ms: Option<u64>,
    pub refresh_token: Option<String>,
    pub user_id: String,
}

} // verus!
