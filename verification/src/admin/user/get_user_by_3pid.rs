//! The user of a third-party identifier.

use vstd::prelude::*;

use crate::endpoint::{AuthScheme, Metadata, Method};
use crate::admin::user::User;
use crate::client::uiaa::Medium;

verus! {

/// The method, rate limiting, authentication and path of this endpoint.
pub fn metadata() -> (m: Metadata)
    ensures
        m.describes(Method::Get, false, AuthScheme::AccessToken, "/_synapse/admin/v1/threepid/:medium/users/:address"@),
{
    Metadata::new(Method::Get, false, AuthScheme::AccessToken, "/_synapse/admin/v1/threepid/:medium/users/:address")
}

/// The request.
#[derive(Debug)]
pub struct Request {
    pub medium: Medium,
    pub address: String,
}

/// The response.
#[derive(Debug)]
pub struct Response {
    /// The whole body.
    pub user: User,
}

} // verus!
