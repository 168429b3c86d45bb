//! User-interactive authentication: the stages a server asks for and the
//! authentication data a client answers with.

use vstd::prelude::*;
use vstd::string::*;

verus! {

/// A server's answer asking for more authentication.
#[derive(Debug)]
pub struct UiaaResponse {
    pub flows: Vec<AuthFlow>,
    pub completed: Vec<AuthType>,
    /// The parameters of the stages, by their JSON text.
    pub params: String,
    pub session: Option<String>,
}

/// Ordered list of stages required to complete authentication.
#[derive(Debug)]
pub struct AuthFlow {
    pub stages: Vec<AuthType>,
}

impl AuthFlow {
    /// A flow of the given stages.
    pub fn new(stages: Vec<AuthType>) -> (r: Self)
        ensures
            r.stages@ == stages@,
    {
        Self { stages }
    }
}

/// One authentication stage.
#[derive(Debug, Clone, Copy, PartialEq, Eq, Structural)]
pub enum AuthType {
    /// `m.login.password`
    Password,
    /// `m.login.recaptcha`
    ReCaptcha,
    /// `m.login.email.identity`
    EmailIdentity,
    /// `m.login.msisdn`
    Msisdn,
    /// `m.login.sso`
    Sso,
    /// `m.login.dummy`
    Dummy,
    /// `m.login.registration_token`
    RegistrationToken,
}

/// The medium of a third-party identifier.
#[derive(Debug, PartialEq, Eq)]
pub enum Medium {
    /// `email`
    Email,
    /// `msisdn`
    Msisdn,
    /// Any other medium, by its name.
    Custom(String),
}

/// Identifies the user who authenticates.
#[derive(Debug, PartialEq, Eq)]
pub enum UserIdentifier {
    /// `m.id.user`: a user by the localpart of their ID.
    User { user: String },
    /// `m.id.thirdparty`: a user by a third-party identifier.
    ThirdParty { medium: Medium, address: String },
    /// `m.id.phone`: a user by a phone number.
    Phone { country: String, phone: String },
}

/// Authentication data of one stage.
#[derive(Debug)]
pub enum AuthData {
    Password(Password),
    Dummy(Dummy),
}

/// The data of a `m.login.dummy` stage: none.
#[derive(Debug)]
pub struct Dummy {}

impl Dummy {
    /// The dummy stage's data.
    pub fn new() -> (r: Self)
        ensures
            r == (Dummy {}),
    {
        Dummy {}
    }
}

impl Default for Dummy {
    fn default() -> (r: Self)
        ensures
            r == (Dummy {}),
    {
        Dummy {}
    }
}

/// A user ID of the form `@localpart:server`: a leading `@` and a `:` after
/// it.
pub open spec fn is_user_id(id: Seq<char>) -> bool {
    id.len() > 0 && id[0] == '@' && exists|i: int| 1 <= i < id.len() && id[i] == ':'
}

/// The position of the first `:` of a user ID.
pub open spec fn colon_index(id: Seq<char>) -> int {
    choose|i: int| 1 <= i < id.len() && id[i] == ':' && forall|j: int| 1 <= j < i ==> id[j] != ':'
}

/// The localpart of a user ID: what lies between the `@` and the first `:`.
pub open spec fn localpart(id: Seq<char>) -> Seq<char> {
    id.subrange(1, colon_index(id))
}

/// Finds the localpart of a user ID.
fn user_localpart(user_id: &str) -> (r: String)
    requires
        is_user_id(user_id@),
    ensures
        r@ == localpart(user_id@),
{
    let n = user_id.unicode_len();
    let mut i: usize = 1;
    while i < n
        invariant
            n == user_id@.len(),
            1 <= i <= n,
            is_user_id(user_id@),
            forall|j: int| 1 <= j < i ==> user_id@[j] != ':',
        decreases n - i,
    {
        if user_id.get_char(i) == ':' {
            let ghost c = colon_index(user_id@);
            proof {
                let w = choose|k: int| 1 <= k < user_id@.len() && user_id@[k] == ':';
                let first = first_colon(user_id@, w);
                assert(1 <= c < user_id@.len() && user_id@[c] == ':' && forall|j: int|
                    1 <= j < c ==> user_id@[j] != ':');
                if c < i {
                } else if c > i {
                    assert(user_id@[i as int] == ':');
                }
            }
            return user_id.substring_char(1, i).to_owned();
        }
        i = i + 1;
    }
    proof {
        let w = choose|k: int| 1 <= k < user_id@.len() && user_id@[k] == ':';
        assert(user_id@[w] != ':');
    }
    user_id.substring_char(1, i).to_owned()
}

/// Among the positions up to `w`, which holds a `:`, there is a first `:`.
proof fn first_colon(id: Seq<char>, w: int) -> (c: int)
    requires
        1 <= w < id.len(),
        id[w] == ':',
    ensures
        1 <= c <= w,
        id[c] == ':',
        forall|j: int| 1 <= j < c ==> id[j] != ':',
    decreases w,
{
    if exists|j: int| 1 <= j < w && id[j] == ':' {
        let j = choose|j: int| 1 <= j < w && id[j] == ':';
        first_colon(id, j)
    } else {
        w
    }
}

/// The data of a `m.login.password` stage.
#[derive(Debug)]
pub struct Password {
    pub identifier: UserIdentifier,
    pub password: String,
}

impl Password {
    /// Password data for a user, identified by the localpart of their ID.
    pub fn new(user_id: &str, password: String) -> (r: Self)
        requires
            is_user_id(user_id@),
        ensures
            r.identifier matches UserIdentifier::User { user } && user@ == localpart(user_id@),
            r.password@ == password@,
    {
        Self { identifier: UserIdentifier::User { user: user_localpart(user_id) }, password }
    }
}

impl AuthData {
    /// The stage this data answers.
    pub open spec fn spec_kind(&self) -> AuthType {
        match self {
            AuthData::Password(_) => AuthType::Password,
            AuthData::Dummy(_) => AuthType::Dummy,
        }
    }

    /// The stage this data answers.
    pub fn kind(&self) -> (r: AuthType)
        ensures
            r == self.spec_kind(),
    {
        match self {
            AuthData::Password(_) => AuthType::Password,
            AuthData::Dummy(_) => AuthType::Dummy,
        }
    }
}

/// Authentication data sent with a request: the stage, its data and the
/// session it belongs to.
#[derive(Debug)]
pub struct Auth {
    pub session: Option<String>,
    pub kind: AuthType,
    pub data: AuthData,
}

impl Auth {
    /// Authentication data whose stage is the one `data` answers.
    pub fn new(data: AuthData, session: Option<String>) -> (r: Self)
        ensures
            r.kind == data.spec_kind(),
            r.data == data,
            r.session == session,
    {
        Self { session, kind: data.kind(), data }
    }
}

/// The localpart of `@l:s` is `l` whenever `l` holds no `:`, whatever the
/// server part `s`.
pub proof fn lemma_localpart_of(l: Seq<char>, s: Seq<char>)
    requires
        !l.contains(':'),
    ensures
        is_user_id(seq!['@'] + l + seq![':'] + s),
        localpart(seq!['@'] + l + seq![':'] + s) == l,
{
    let id = seq!['@'] + l + seq![':'] + s;
    let c: int = l.len() as int + 1;
    assert(id[c] == ':');
    assert forall|j: int| 1 <= j < c implies id[j] != ':' by {
        assert(id[j] == l[j - 1]);
    }
    assert(1 <= c < id.len() && id[c] == ':' && forall|j: int| 1 <= j < c ==> id[j] != ':');
    let i = colon_index(id);
    if i < c {
        assert(id[i] == l[i - 1]);
    } else if i > c {
        assert(id[c] == ':');
    }
    assert(i == c);
    assert(id.subrange(1, c) =~= l);
}

} // verus!
