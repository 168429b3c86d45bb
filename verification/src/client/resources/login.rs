//! Logging in with a password, a token or single sign-on.

use vstd::prelude::*;
use vstd::string::*;

use crate::client::uiaa::Medium;

verus! {

/// An identity provider offered for single sign-on.
#[derive(Debug)]
pub struct IdentityProvider {
    pub id: String,
    pub name: String,
    /// The provider's icon, by its MXC URI.
    pub icon: Option<String>,
}

/// How a client logs in, with what that takes.
#[derive(Debug)]
pub enum LoginType {
    /// `m.login.password`
    Password { password: String },
    /// `m.login.token`
    Token { token: String },
    /// `m.login.sso`
    Sso { identity_providers: Vec<IdentityProvider> },
    /// `m.login.application_service`
    ApplicationService,
}

/// Identifies the user who logs in.
#[derive(Debug)]
pub enum Identifier {
    /// `m.id.user`
    User { user: String },
    /// `m.id.thirdparty`
    ThirdParty { medium: Medium, address: String },
    /// `m.id.phone`
    Phone { country: String, phone: String },
}

/// A login request.
#[derive(Debug)]
pub struct LoginRequest {
    pub kind: LoginType,
    pub identifier: Option<Identifier>,
    /// Sent as `initial_device_display_name`, and not at all when empty.
    pub device_name: String,
    pub refresh_token: Option<bool>,
}

/// A way to log in, without what it takes.
#[derive(Debug, Clone, Copy, PartialEq, Eq, Structural)]
pub enum LoginTypeOnly {
    Password,
    Token,
    Sso,
    ApplicationService,
}

/// A way to log in that the server offers.
#[derive(Debug)]
pub struct LoginFlowResponse {
    pub get_login_token: Option<bool>,
    pub kind: LoginTypeOnly,
}

/// The base URL of a server.
#[derive(Debug, PartialEq, Eq)]
pub struct BaseUrl {
    pub base_url: String,
}

/// Where the client should find the homeserver and the identity server.
#[derive(Debug, PartialEq, Eq)]
pub struct WellKnown {
    pub homeserver: BaseUrl,
    pub identity_server: BaseUrl,
}

/// The result of logging in.
#[derive(Debug, PartialEq, Eq)]
pub struct LoginResponse {
    pub access_token: String,
    pub device_id: String,
    pub expires_in_ms: Option<u64>,
    pub refresh_token: Option<String>,
    pub user_id: String,
    pub well_known: Option<WellKnown>,
}

/// Handlers of the login API.
#[derive(Debug)]
pub struct LoginHandle;

impl LoginHandle {
    /// The path of the login API.
    pub fn login_path() -> (r: String)
        ensures
            r@ == "/_matrix/client/v3/login"@,
    {
        "/_matrix/client/v3/login".to_owned()
    }

    /// The request that logs a user in with a password: the user identified
    /// by their user ID, no device name, no refresh token asked for.
    pub fn password_login_request(username: &str, password: String) -> (r: LoginRequest)
        ensures
            r.kind matches LoginType::Password { password: p } && p@ == password@,
            r.identifier matches Some(Identifier::User { user }) && user@ == username@,
            r.device_name@.len() == 0,
            r.refresh_token is None,
    {
        LoginRequest {
            kind: LoginType::Password { password },
            identifier: Some(Identifier::User { user: username.to_owned() }),
            device_name: String::new(),
            refresh_token: None,
        }
    }
}

} // verus!
