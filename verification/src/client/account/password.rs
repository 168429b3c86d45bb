//! Changing the password of an account.

use vstd::prelude::*;

use crate::client::uiaa::{is_user_id, localpart, Auth, AuthData, Dummy, Password, UserIdentifier};

verus! {

/// The password data identifies the user by the localpart of `user_id`.
pub open spec fn password_identifies(p: Password, user_id: Seq<char>) -> bool {
    match p.identifier {
        UserIdentifier::User { user } => user@ == localpart(user_id),
        _ => false,
    }
}

/// A request to change the password.
#[derive(Debug)]
pub struct Request {
    pub auth: Auth,
    pub logout_devices: bool,
    pub new_password: String,
}

impl Request {
    /// The path of the password API.
    pub fn path() -> (r: &'static str)
        ensures
            r@ == "/_matrix/client/v3/account/password"@,
    {
        "/_matrix/client/v3/account/password"
    }

    /// A request to set `new_password`, authenticated by the dummy stage,
    /// without a session, keeping the other devices logged in.
    pub fn new(new_password: String) -> (r: Self)
        ensures
            r.auth.data is Dummy,
            r.auth.kind == r.auth.data.spec_kind(),
            r.auth.session is None,
            !r.logout_devices,
            r.new_password == new_password,
    {
        Self {
            auth: Auth::new(AuthData::Dummy(Dummy::new()), None),
            logout_devices: false,
            new_password,
        }
    }

    /// This request authenticated by the user's current password instead.
    pub fn with_password(self, user_id: &str, password: String) -> (r: Self)
        requires
            is_user_id(user_id@),
        ensures
            r.auth.data matches AuthData::Password(p) && p.password@ == password@
                && password_identifies(p, user_id@),
            r.auth.kind == r.auth.data.spec_kind(),
            r.auth.session is None,
            r.logout_devices == self.logout_devices,
            r.new_password == self.new_password,
    {
        let mut s = self;
        s.auth = Auth::new(AuthData::Password(Password::new(user_id, password)), None);
        s
    }
}

} // verus!
