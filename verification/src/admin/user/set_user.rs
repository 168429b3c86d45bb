//! Creates or modifies a user account.

use vstd::prelude::*;

use crate::endpoint::{AuthScheme, Metadata, Method};
use crate::admin::user::User;

verus! {

/// The method, rate limiting, authentication and path of this endpoint.
pub fn metadata() -> (m: Metadata)
    ensures
        m.describes(Method::Put, false, AuthScheme::AccessToken, "/_synapse/admin/v2/users/:user_id"@),
{
    Metadata::new(Method::Put, false, AuthScheme::AccessToken, "/_synapse/admin/v2/users/:user_id")
}

/// The request.
#[derive(Debug)]
pub struct Request {
    pub user_id: String,
    /// The whole body.
    pub user: User,
}

/// The response.
#[derive(Debug)]
pub struct Response {}

} // verus!
