//! The owner of an access token.

use vstd::prelude::*;
use vstd::string::*;

verus! {

/// Who an access token belongs to.
#[derive(Debug)]
pub struct Session {
    pub device_id: String,
    pub is_guest: bool,
    pub user_id: String,
}

impl Session {
    /// The path that tells who owns the access token of a request.
    pub fn whoami_path() -> (r: String)
        ensures
            r@ == "/_matrix/client/v3/account/whoami"@,
    {
        "/_matrix/client/v3/account/whoami".to_owned()
    }
}

} // verus!
