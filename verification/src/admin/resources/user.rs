//! The user admin API: querying, creating, modifying and impersonating user
//! accounts.
//!
//! Requests are authenticated with the access token of a server admin.

use vstd::prelude::*;
use vstd::string::*;

verus! {

/// Handlers of the user admin API.
#[derive(Debug, Default)]
pub struct UserService;

/// An identifier of a user at an external identity provider.
#[derive(Debug)]
pub struct ExternalId {
    pub auth_provider: String,
    pub external_id: String,
}

/// A third-party identifier bound to an account.
#[derive(Debug)]
pub struct ThreePid {
    pub medium: String,
    pub address: String,
    pub added_at: u64,
    pub validated_at: u64,
}

/// A user account.
#[derive(Debug)]
pub struct User {
    /// The user ID, e.g. `@user:example.com`.
    pub name: String,
    pub displayname: Option<String>,
    pub threepids: Vec<ThreePid>,
    pub avatar_url: Option<String>,
    pub is_guest: bool,
    pub admin: bool,
    pub deactivated: bool,
    pub erased: bool,
    pub shadow_banned: bool,
    pub creation_ts: u64,
    pub appservice_id: Option<String>,
    pub consent_server_notice_sent: Option<u64>,
    pub consent_version: Option<String>,
    pub consent_ts: Option<u64>,
    pub external_ids: Vec<ExternalId>,
    pub user_type: Option<String>,
    pub locked: bool,
}

/// The settings of an account to create.
#[derive(Debug)]
pub struct UserCreateBody {
    pub password: String,
    pub logout_devices: bool,
    pub displayname: Option<String>,
    pub avatar_url: Option<String>,
    pub threepids: Vec<ThreePid>,
    pub external_ids: Vec<ExternalId>,
    pub admin: bool,
    pub deactivated: bool,
    pub user_type: Option<String>,
    pub locked: bool,
}

/// The query of the account list.
#[derive(Debug)]
pub struct ListUsersQuery {
    pub user_id: Option<String>,
    pub name: Option<String>,
    pub guests: Option<bool>,
    pub admins: Option<bool>,
    pub deactivated: Option<bool>,
    pub limit: Option<u64>,
    pub from: Option<u64>,
}

impl Default for ListUsersQuery {
    fn default() -> (r: Self)
        ensures
            r.user_id is None,
            r.name is None,
            r.guests is None,
            r.admins is None,
            r.deactivated is None,
            r.limit is None,
            r.from is None,
    {
        ListUsersQuery {
            user_id: None,
            name: None,
            guests: None,
            admins: None,
            deactivated: None,
            limit: None,
            from: None,
        }
    }
}

/// An account as the account list gives it.
#[derive(Debug)]
pub struct ListUser {
    pub name: String,
    pub user_type: Option<String>,
    pub is_guest: usize,
    pub admin: usize,
    pub deactivated: usize,
    pub shadow_banned: bool,
    pub avatar_url: Option<String>,
    pub creation_ts: u64,
    pub last_seen_ts: Option<u64>,
    pub erased: bool,
    pub locked: bool,
}

impl Default for ListUser {
    fn default() -> (r: Self)
        ensures
            r.name@.len() == 0,
            r.user_type is None,
            r.is_guest == 0,
            r.admin == 0,
            r.deactivated == 0,
            !r.shadow_banned,
            r.avatar_url is None,
            r.creation_ts == 0,
            r.last_seen_ts is None,
            !r.erased,
            !r.locked,
    {
        ListUser {
            name: String::new(),
            user_type: None,
            is_guest: 0,
            admin: 0,
            deactivated: 0,
            shadow_banned: false,
            avatar_url: None,
            creation_ts: 0,
            last_seen_ts: None,
            erased: false,
            locked: false,
        }
    }
}

/// A page of the account list.
#[derive(Debug)]
pub struct ListUsersResponse {
    pub users: Vec<ListUser>,
    pub total: u64,
    pub next_token: Option<String>,
}

impl Default for ListUsersResponse {
    fn default() -> (r: Self)
        ensures
            r.users@.len() == 0,
            r.total == 0,
            r.next_token is None,
    {
        ListUsersResponse {
            users: Vec::new(),
            total: 0,
            next_token: None,
        }
    }
}

/// The settings of an account to modify.
#[derive(Debug)]
pub struct UserUpdateBody {
    pub password: String,
    pub logout_devices: bool,
    pub displayname: Option<String>,
    pub avatar_url: Option<String>,
    pub threepids: Vec<ThreePid>,
    pub external_ids: Vec<ExternalId>,
    pub admin: bool,
    pub deactivated: bool,
    pub user_type: Option<String>,
    pub locked: bool,
}

/// When a token issued to log in as a user expires, if ever.
#[derive(Debug)]
pub struct LoginAsUserBody {
    pub valid_until_ms: Option<u64>,
}

impl Default for LoginAsUserBody {
    fn default() -> (r: Self)
        ensures
            r.valid_until_ms is None,
    {
        LoginAsUserBody {
            valid_until_ms: None,
        }
    }
}

/// A token to act as a user.
#[derive(Debug)]
pub struct LoginAsUserResponse {
    pub access_token: String,
}

impl Default for LoginAsUserResponse {
    fn default() -> (r: Self)
        ensures
            r.access_token@.len() == 0,
    {
        LoginAsUserResponse {
            access_token: String::new(),
        }
    }
}

/// The data of a user account.
#[derive(Debug)]
pub struct QueryUserDataResponse {
    pub name: String,
    pub displayname: Option<String>,
    pub threepids: Vec<ThreePid>,
    pub avatar_url: Option<String>,
    pub is_guest: bool,
    pub admin: bool,
    pub deactivated: bool,
    pub erased: bool,
    pub shadow_banned: bool,
    pub creation_ts: i64,
    pub appservice_id: Option<String>,
    pub consent_server_notice_sent: Option<bool>,
    pub consent_version: Option<bool>,
    pub consent_ts: Option<bool>,
    pub external_ids: Vec<Vec<ExternalId>>,
    pub user_type: Option<String>,
}

impl UserService {
    /// The path of the account list.
    pub fn list_path() -> (r: String)
        ensures
            r@ == "/_synapse/admin/v2/users"@,
    {
        "/_synapse/admin/v2/users".to_owned()
    }

    /// The path of a user account, to query, create or modify.
    pub fn user_path(user_id: &str) -> (r: String)
        ensures
            r@ == "/_synapse/admin/v2/users/"@ + user_id@,
    {
        let mut p = "/_synapse/admin/v2/users/".to_owned();
        p.append(user_id);
        p
    }

    /// The path that logs in as a user.
    pub fn login_as_user_path(user_id: &str) -> (r: String)
        ensures
            r@ == "/_synapse/admin/v1/users/"@ + user_id@ + "/login"@,
    {
        let mut p = "/_synapse/admin/v1/users/".to_owned();
        p.append(user_id);
        p.append("/login");
        p
    }
}

} // verus!
