//! One user account.

use vstd::prelude::*;

use crate::endpoint::{AuthScheme, Metadata, Method};
use crate::admin::user::ThirdPartyIdentifier;

verus! {

/// The method, rate limiting, authentication and path of this endpoint.
pub fn metadata() -> (m: Metadata)
    ensures
        m.describes(Method::Get, false, AuthScheme::AccessToken, "/_synapse/admin/v2/users/:name"@),
{
    Metadata::new(Method::Get, false, AuthScheme::AccessToken, "/_synapse/admin/v2/users/:name")
}

/// The request.
#[derive(Debug)]
pub struct Request {
    pub name: String,
}

/// The response.
#[derive(Debug)]
pub struct Response {
    pub name: String,
    pub displayname: Option<String>,
    pub threepids: Vec<ThirdPartyIdentifier>,
    pub avatar_url: Option<String>,
    pub admin: bool,
    pub deactivated: bool,
    pub erased: bool,
    pub shadow_banned: bool,
    pub creation_ts: u64,
    pub consent_server_notice_sent: Option<u64>,
    pub consent_ts: Option<u64>,
    pub external_ids: Vec<ExternalId>,
    pub locked: bool,
}

/// An identity of the user at an external provider.
#[derive(Debug)]
pub struct ExternalId {
    pub auth_provider: String,
    pub external_id: String,
}

} // verus!
