//! Logs in.

use vstd::prelude::*;

use crate::endpoint::{AuthScheme, Metadata, Method};
use crate::client::resources::login::{LoginType, WellKnown};
use crate::client::uiaa::UserIdentifier;

verus! {

/// The method, rate limiting, authentication and path of this endpoint.
pub fn metadata() -> (m: Metadata)
    ensures
        m.describes(Method::Post, true, AuthScheme::Unauthenticated, "/_matrix/client/v3/login"@),
{
    Metadata::new(Method::Post, true, AuthScheme::Unauthenticated, "/_matrix/client/v3/login")
}

/// The request.
#[derive(Debug)]
pub struct Request {
    pub kind: LoginType,
    pub identifier: Option<UserIdentifier>,
    /// Sent as `initial_device_display_name` unless empty.
    pub device_name: String,
    pub refresh_token: Option<bool>,
}

impl Request {
    /// A login request.
    pub fn new(kind: LoginType, identifier: Option<UserIdentifier>, device_name: String, refresh_token: Option<bool>) -> (r: Self)
        ensures
            r.kind == kind,
            r.identifier == identifier,
            r.device_name == device_name,
            r.refresh_token == refresh_token,
    {
        Self { kind, identifier, device_name, refresh_token }
    }
}

/// The response.
#[derive(Debug)]
pub struct Response {
    pub access_token: String,
    pub device_id: String,
    pub expires_in_ms: Option<u64>,
    pub refresh_token: Option<String>,
    pub user_id: String,
    pub well_known: Option<WellKnown>,
}

} // verus!
