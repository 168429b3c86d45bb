//! The ways to log in.

use vstd::prelude::*;

use crate::endpoint::{AuthScheme, Metadata, Method};

verus! {

/// The method, rate limiting, authentication and path of this endpoint.
pub fn metadata() -> (m: Metadata)
    ensures
        m.describes(Method::Get, true, AuthScheme::Unauthenticated, "/_matrix/client/v3/login"@),
{
    Metadata::new(Method::Get, true, AuthScheme::Unauthenticated, "/_matrix/client/v3/login")
}

/// The request.
#[derive(Debug)]
pub struct Request {}

/// The response.
#[derive(Debug)]
pub struct Response {
    pub body: Vec<LoginFlow>,
}

/// A way to log in.
#[derive(Debug)]
pub struct LoginFlow {
    pub get_login_token: Option<bool>,
    pub kind: LoginType,
}

/// The type of a login flow.
#[derive(Debug, Clone, Copy, PartialEq, Eq, Structural)]
pub enum LoginType {
    /// `m.login.password`
    Password,
    /// `m.login.token`
    Token,
    /// `m.login.sso`
    Sso,
    /// `m.login.application_service`
    ApplicationService,
}

} // verus!
