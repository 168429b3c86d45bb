//! User endpoints of the admin API.

pub mod get_user;
pub mod get_user_by_3pid;
pub mod get_users;
pub mod set_user;

use vstd::prelude::*;
use crate::client::uiaa::Medium;

verus! {

/// A user account.
#[derive(Debug)]
pub struct User {
    /// Sent as `name`.
    pub user_id: String,
    pub displayname: Option<String>,
    pub avatar_url: Option<String>,
    pub threepids: Vec<ThirdPartyIdentifier>,
    pub external_ids: Vec<ExternalId>,
    pub admin: bool,
    pub deactivated: bool,
    /// Never sent.
    pub erased: bool,
    /// Never sent.
    pub shadow_banned: bool,
    /// Never sent.
    pub creation_ts: u64,
    /// Never sent.
    pub consent_server_notice_sent: Option<u64>,
    /// Never sent.
    pub consent_ts: Option<u64>,
    pub locked: bool,
}

/// An identity of the user at an external provider.
#[derive(Debug)]
pub struct ExternalId {
    pub auth_provider: String,
    pub external_id: String,
}

/// A third-party identifier of a user.
#[derive(Debug)]
pub struct ThirdPartyIdentifier {
    pub address: String,
    pub medium: Medium,
    pub validated_at: u64,
    pub added_at: u64,
}

} // verus!
