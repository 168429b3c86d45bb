//! Errors that a homeserver sends back: the error codes, their kinds, and
//! how a kind is read from and written to the fields of a JSON object.

use vstd::prelude::*;

use crate::json::{JsonNumber, JsonNumberView, JsonValue, JsonView};
use crate::text::{lemma_str_lt_total, lemma_str_lt_transitive, str_eq, str_lt, str_lt_exec};

verus! {

/// The fields of an error object that some error kind reads.
#[derive(Debug, Clone, Copy, PartialEq, Eq, Structural)]
pub enum FieldName {
    ErrCode,
    SoftLogout,
    RetryAfterMs,
    RoomVersion,
    AdminContact,
    Status,
    Body,
    CurrentVersion,
}

/// The known field that a key names, if any.
pub open spec fn known_field(key: Seq<char>) -> Option<FieldName> {
    if key == "errcode"@ {
        Some(FieldName::ErrCode)
    } else if key == "soft_logout"@ {
        Some(FieldName::SoftLogout)
    } else if key == "retry_after_ms"@ {
        Some(FieldName::RetryAfterMs)
    } else if key == "room_version"@ {
        Some(FieldName::RoomVersion)
    } else if key == "admin_contact"@ {
        Some(FieldName::AdminContact)
    } else if key == "status"@ {
        Some(FieldName::Status)
    } else if key == "body"@ {
        Some(FieldName::Body)
    } else if key == "current_version"@ {
        Some(FieldName::CurrentVersion)
    } else {
        None
    }
}

/// A key of an error object: one of the known fields, or any other key.
#[derive(Debug, PartialEq)]
pub enum Field {
    ErrCode,
    SoftLogout,
    RetryAfterMs,
    RoomVersion,
    AdminContact,
    Status,
    Body,
    CurrentVersion,
    Other(String),
}

impl Field {
    /// The known field this key is, if it is one.
    pub open spec fn name(&self) -> Option<FieldName> {
        match self {
            Field::ErrCode => Some(FieldName::ErrCode),
            Field::SoftLogout => Some(FieldName::SoftLogout),
            Field::RetryAfterMs => Some(FieldName::RetryAfterMs),
            Field::RoomVersion => Some(FieldName::RoomVersion),
            Field::AdminContact => Some(FieldName::AdminContact),
            Field::Status => Some(FieldName::Status),
            Field::Body => Some(FieldName::Body),
            Field::CurrentVersion => Some(FieldName::CurrentVersion),
            Field::Other(_) => None,
        }
    }

    /// Classifies a key of an error object.
    pub fn new(s: String) -> (f: Field)
        ensures
            f.name() == known_field(s@),
            f matches Field::Other(o) ==> o@ == s@,
    {
        if str_eq(s.as_str(), "errcode") {
            Field::ErrCode
        } else if str_eq(s.as_str(), "soft_logout") {
            Field::SoftLogout
        } else if str_eq(s.as_str(), "retry_after_ms") {
            Field::RetryAfterMs
        } else if str_eq(s.as_str(), "room_version") {
            Field::RoomVersion
        } else if str_eq(s.as_str(), "admin_contact") {
            Field::AdminContact
        } else if str_eq(s.as_str(), "status") {
            Field::Status
        } else if str_eq(s.as_str(), "body") {
            Field::Body
        } else if str_eq(s.as_str(), "current_version") {
            Field::CurrentVersion
        } else {
            Field::Other(s)
        }
    }
}

/// An owned error code text outside the listed codes.
#[derive(Debug, PartialEq, Eq)]
pub struct PrivOwnedStr(String);

impl View for PrivOwnedStr {
    type V = Seq<char>;

    closed spec fn view(&self) -> Seq<char> {
        self.0@
    }
}

impl PrivOwnedStr {
    /// Wraps a code text.
    pub fn new(s: String) -> (r: PrivOwnedStr)
        ensures
            r@ == s@,
    {
        PrivOwnedStr(s)
    }

    /// The code text.
    pub fn as_str(&self) -> (r: &str)
        ensures
            r@ == self@,
    {
        self.0.as_str()
    }
}

/// A span of time, in whole seconds and nanoseconds below a second.
#[derive(Debug, Clone, Copy, PartialEq, Eq, Structural)]
pub struct Duration {
    secs: u64,
    nanos: u32,
}

/// Nanoseconds per second.
pub const NANOS_PER_SEC: u32 = 1_000_000_000;

/// Nanoseconds per millisecond.
pub const NANOS_PER_MILLI: u32 = 1_000_000;

impl Duration {
    #[verifier::type_invariant]
    spec fn normalized(self) -> bool {
        self.nanos < NANOS_PER_SEC
    }

    /// Whole seconds.
    pub closed spec fn secs(self) -> u64 {
        self.secs
    }

    /// Nanoseconds below a second.
    pub closed spec fn subsec_nanos_spec(self) -> u32 {
        self.nanos
    }

    /// The span in nanoseconds.
    pub open spec fn total_nanos(self) -> int {
        self.secs() * NANOS_PER_SEC + self.subsec_nanos_spec()
    }

    /// The whole milliseconds of the span.
    pub open spec fn millis(self) -> int {
        self.secs() * 1000 + self.subsec_nanos_spec() / NANOS_PER_MILLI
    }

    /// A span of `secs` seconds and `nanos` nanoseconds; nanoseconds past a
    /// second carry into the seconds.
    pub fn new(secs: u64, nanos: u32) -> (d: Duration)
        requires
            secs + nanos / NANOS_PER_SEC <= u64::MAX,
        ensures
            d.total_nanos() == secs * NANOS_PER_SEC + nanos,
            d.subsec_nanos_spec() < NANOS_PER_SEC,
    {
        let extra = (nanos / NANOS_PER_SEC) as u64;
        Duration { secs: secs + extra, nanos: nanos % NANOS_PER_SEC }
    }

    /// The span of `ms` milliseconds.
    pub closed spec fn spec_from_millis(ms: u64) -> Duration {
        Duration { secs: ms / 1000, nanos: ((ms % 1000) * NANOS_PER_MILLI) as u32 }
    }

    /// A span of `ms` milliseconds.
    pub fn from_millis(ms: u64) -> (d: Duration)
        ensures
            d == Duration::spec_from_millis(ms),
            d.secs() == ms / 1000,
            d.subsec_nanos_spec() == (ms % 1000) * NANOS_PER_MILLI,
            d.total_nanos() == ms * NANOS_PER_MILLI,
            d.millis() == ms,
    {
        let nanos = ((ms % 1000) as u32) * NANOS_PER_MILLI;
        Duration { secs: ms / 1000, nanos }
    }

    /// Whole seconds.
    pub fn as_secs(&self) -> (r: u64)
        ensures
            r == self.secs(),
    {
        self.secs
    }

    /// Nanoseconds below a second.
    pub fn subsec_nanos(&self) -> (r: u32)
        ensures
            r == self.subsec_nanos_spec(),
            r < NANOS_PER_SEC,
    {
        proof {
            use_type_invariant(self);
        }
        self.nanos
    }

    /// The whole milliseconds of the span.
    pub fn as_millis(&self) -> (r: u128)
        ensures
            r == self.millis(),
    {
        (self.secs as u128) * 1000 + ((self.nanos / NANOS_PER_MILLI) as u128)
    }
}

/// Every key of `s` comes strictly before every later key.
pub open spec fn sorted_keys(s: Seq<(Seq<char>, JsonView)>) -> bool {
    forall|i: int, j: int| 0 <= i < j < s.len() ==> str_lt(#[trigger] s[i].0, #[trigger] s[j].0)
}

/// Some entry of `s` has the key `k`.
pub open spec fn has_key(s: Seq<(Seq<char>, JsonView)>, k: Seq<char>) -> bool {
    exists|i: int| 0 <= i < s.len() && (#[trigger] s[i]).0 == k
}

/// Where a key goes among entries: before the first entry whose key comes
/// after it.
pub open spec fn insert_pos(s: Seq<(Seq<char>, JsonView)>, k: Seq<char>) -> int
    decreases s.len(),
{
    if s.len() == 0 {
        0
    } else if str_lt(k, s[0].0) {
        0
    } else {
        1 + insert_pos(s.drop_first(), k)
    }
}

/// `s` with the entry `(k, v)` put in its place.
pub open spec fn sorted_insert(s: Seq<(Seq<char>, JsonView)>, k: Seq<char>, v: JsonView) -> Seq<
    (Seq<char>, JsonView),
> {
    s.insert(insert_pos(s, k), (k, v))
}

/// The fields of an error object beyond the known ones, ordered by key.
#[derive(Debug, PartialEq)]
pub struct Extra {
    entries: Vec<(String, JsonValue)>,
}

impl View for Extra {
    type V = Seq<(Seq<char>, JsonView)>;

    closed spec fn view(&self) -> Seq<(Seq<char>, JsonView)> {
        self.entries@.map_values(|e: (String, JsonValue)| (e.0@, e.1@))
    }
}

/// The place of a key lies within the entries.
proof fn lemma_insert_pos_bounds(s: Seq<(Seq<char>, JsonView)>, k: Seq<char>)
    ensures
        0 <= insert_pos(s, k) <= s.len(),
    decreases s.len(),
{
    if s.len() > 0 && !str_lt(k, s[0].0) {
        lemma_insert_pos_bounds(s.drop_first(), k);
    }
}

/// Entries before the place of `k` do not come after `k`; the entry at the
/// place does.
proof fn lemma_insert_pos_split(s: Seq<(Seq<char>, JsonView)>, k: Seq<char>)
    ensures
        forall|i: int| 0 <= i < insert_pos(s, k) ==> !str_lt(k, #[trigger] s[i].0),
        insert_pos(s, k) < s.len() ==> str_lt(k, s[insert_pos(s, k)].0),
    decreases s.len(),
{
    if s.len() > 0 && !str_lt(k, s[0].0) {
        lemma_insert_pos_split(s.drop_first(), k);
        lemma_insert_pos_bounds(s.drop_first(), k);
        assert forall|i: int| 0 <= i < insert_pos(s, k) implies !str_lt(k, #[trigger] s[i].0) by {
            if i > 0 {
                assert(s[i] == s.drop_first()[i - 1]);
            }
        }
    }
}

/// A key after every key of sorted entries goes at their end.
pub proof fn lemma_insert_pos_after_all(s: Seq<(Seq<char>, JsonView)>, k: Seq<char>)
    requires
        forall|i: int| 0 <= i < s.len() ==> str_lt(#[trigger] s[i].0, k),
    ensures
        insert_pos(s, k) == s.len(),
    decreases s.len(),
{
    if s.len() > 0 {
        lemma_str_lt_total(s[0].0, k);
        assert forall|i: int| 0 <= i < s.drop_first().len() implies str_lt(
            #[trigger] s.drop_first()[i].0,
            k,
        ) by {
            assert(s.drop_first()[i] == s[i + 1]);
        }
        lemma_insert_pos_after_all(s.drop_first(), k);
    }
}

/// Inserting a new key keeps entries sorted.
proof fn lemma_sorted_insert(s: Seq<(Seq<char>, JsonView)>, k: Seq<char>, v: JsonView)
    requires
        sorted_keys(s),
        !has_key(s, k),
    ensures
        sorted_keys(sorted_insert(s, k, v)),
        sorted_insert(s, k, v).len() == s.len() + 1,
{
    let p = insert_pos(s, k);
    lemma_insert_pos_bounds(s, k);
    lemma_insert_pos_split(s, k);
    let t = sorted_insert(s, k, v);
    assert forall|i: int| 0 <= i < p implies str_lt(#[trigger] s[i].0, k) by {
        lemma_str_lt_total(s[i].0, k);
        if s[i].0 == k {
            assert(has_key(s, k));
        }
    }
    assert forall|j: int| p <= j < s.len() implies str_lt(k, #[trigger] s[j].0) by {
        if j > p {
            lemma_str_lt_transitive(k, s[p].0, s[j].0);
        }
    }
    assert forall|i: int, j: int| 0 <= i < j < t.len() implies str_lt(
        #[trigger] t[i].0,
        #[trigger] t[j].0,
    ) by {
        if i < p && j < p {
            assert(t[i] == s[i] && t[j] == s[j]);
        } else if i < p && j == p {
            assert(t[i] == s[i]);
        } else if i < p {
            assert(t[i] == s[i] && t[j] == s[j - 1]);
        } else if i == p {
            assert(t[j] == s[j - 1]);
        } else {
            assert(t[i] == s[i - 1] && t[j] == s[j - 1]);
        }
    }
}

impl Extra {
    #[verifier::type_invariant]
    spec fn keys_in_order(self) -> bool {
        sorted_keys(self@)
    }

    /// No extra fields.
    pub fn new() -> (r: Extra)
        ensures
            r@ == Seq::<(Seq<char>, JsonView)>::empty(),
    {
        let r = Extra { entries: Vec::new() };
        assert(r@ =~= Seq::<(Seq<char>, JsonView)>::empty());
        r
    }

    /// The number of extra fields.
    pub fn len(&self) -> (r: usize)
        ensures
            r == self@.len(),
    {
        self.entries.len()
    }

    /// The extra field at position `i`, in key order.
    pub fn get(&self, i: usize) -> (r: (&String, &JsonValue))
        requires
            i < self@.len(),
        ensures
            r.0@ == self@[i as int].0,
            r.1@ == self@[i as int].1,
    {
        let e = &self.entries[i];
        (&e.0, &e.1)
    }

    /// The keys of the extra fields are in order.
    pub fn keys_sorted(&self) -> (r: bool)
        ensures
            r,
            sorted_keys(self@),
    {
        proof {
            use_type_invariant(self);
        }
        true
    }

    /// Adds a field under a key that is neither a known field of error
    /// objects (those are read into the kind itself) nor already present;
    /// otherwise gives the key back and changes nothing.
    pub fn insert(&mut self, key: String, value: JsonValue) -> (r: Result<(), String>)
        ensures
            known_field(key@) is Some || has_key(old(self)@, key@) ==> (r matches Err(k) && k@
                == key@ && final(self)@ == old(self)@),
            known_field(key@) is None && !has_key(old(self)@, key@) ==> r is Ok && final(self)@
                == sorted_insert(old(self)@, key@, value@),
    {
        proof {
            use_type_invariant(&*self);
        }
        let probe = Field::new(key.clone());
        match probe {
            Field::Other(_) => {},
            _ => {
                return Err(key);
            },
        }
        let ghost s = self@;
        let n = self.entries.len();
        let mut i: usize = 0;
        let mut pos: usize = n;
        while i < n
            invariant
                n == self.entries@.len(),
                s == self@,
                i <= n,
                pos <= n,
                pos < n ==> pos < i,
                pos < n ==> str_lt(key@, s[pos as int].0),
                pos < n ==> forall|j: int| 0 <= j < pos ==> !str_lt(key@, #[trigger] s[j].0),
                pos == n ==> forall|j: int| 0 <= j < i ==> !str_lt(key@, #[trigger] s[j].0),
                forall|j: int| 0 <= j < i ==> (#[trigger] s[j]).0 != key@,
            decreases n - i,
        {
            let k = &self.entries[i].0;
            assert(s[i as int].0 == k@);
            if str_eq(k.as_str(), key.as_str()) {
                assert(has_key(s, key@));
                return Err(key);
            }
            if pos == n && str_lt_exec(key.as_str(), k.as_str()) {
                pos = i;
            }
            i = i + 1;
        }
        assert(!has_key(s, key@));
        proof {
            lemma_insert_pos_bounds(s, key@);
            lemma_insert_pos_split(s, key@);
            let p = insert_pos(s, key@);
            if pos < n {
                if p < pos {
                    assert(!str_lt(key@, s[p].0));
                }
                if pos < p {
                    assert(!str_lt(key@, s[pos as int].0));
                }
            } else {
                if p < n {
                    assert(!str_lt(key@, s[p].0));
                }
            }
            assert(p == pos);
            lemma_sorted_insert(s, key@, value@);
        }
        let ghost v = value@;
        let ghost kv = key@;
        let mut entries: Vec<(String, JsonValue)> = Vec::new();
        std::mem::swap(&mut entries, &mut self.entries);
        entries.insert(pos, (key, value));
        proof {
            let t = entries@.map_values(|e: (String, JsonValue)| (e.0@, e.1@));
            assert(t =~= sorted_insert(s, kv, v));
        }
        self.entries = entries;
        assert(self@ =~= sorted_insert(s, kv, v));
        Ok(())
    }
}

/// The error codes a homeserver sends in `errcode`, as parsed from text.
#[derive(Debug)]
pub enum ErrCode {
    Forbidden,
    UnknownToken,
    MissingToken,
    BadJson,
    NotJson,
    NotFound,
    LimitExceeded,
    Unknown,
    Unrecognized,
    Unauthorized,
    UserDeactivated,
    UserInUse,
    InvalidUsername,
    RoomInUse,
    InvalidRoomState,
    ThreepidInUse,
    ThreepidNotFound,
    ThreepidAuthFailed,
    ThreepidDenied,
    ServerNotTrusted,
    UnsupportedRoomVersion,
    IncompatibleRoomVersion,
    BadState,
    GuestAccessForbidden,
    CaptchaNeeded,
    CaptchaInvalid,
    MissingParam,
    InvalidParam,
    TooLarge,
    Exclusive,
    ResourceLimitExceeded,
    CannotLeaveServerNoticeRoom,
    WeakPassword,
    UnableToAuthorizeJoin,
    UnableToGrantJoin,
    BadAlias,
    DuplicateAnnotation,
    NotYetUploaded,
    CannotOverwriteMedia,
    UrlNotSet,
    BadStatus,
    ConnectionFailed,
    ConnectionTimeout,
    WrongRoomKeysVersion,
    /// Any code not listed above, kept verbatim.
    _Custom(PrivOwnedStr),
}

/// The listed error code that a text names, if any: each code by its
/// `M_` name, and two codes also by their earlier unstable names.
pub open spec fn known_errcode(s: Seq<char>) -> Option<ErrCode> {
    if s == "M_FORBIDDEN"@ {
        Some(ErrCode::Forbidden)
    } else if s == "M_UNKNOWN_TOKEN"@ {
        Some(ErrCode::UnknownToken)
    } else if s == "M_MISSING_TOKEN"@ {
        Some(ErrCode::MissingToken)
    } else if s == "M_BAD_JSON"@ {
        Some(ErrCode::BadJson)
    } else if s == "M_NOT_JSON"@ {
        Some(ErrCode::NotJson)
    } else if s == "M_NOT_FOUND"@ {
        Some(ErrCode::NotFound)
    } else if s == "M_LIMIT_EXCEEDED"@ {
        Some(ErrCode::LimitExceeded)
    } else if s == "M_UNKNOWN"@ {
        Some(ErrCode::Unknown)
    } else if s == "M_UNRECOGNIZED"@ {
        Some(ErrCode::Unrecognized)
    } else if s == "M_UNAUTHORIZED"@ {
        Some(ErrCode::Unauthorized)
    } else if s == "M_USER_DEACTIVATED"@ {
        Some(ErrCode::UserDeactivated)
    } else if s == "M_USER_IN_USE"@ {
        Some(ErrCode::UserInUse)
    } else if s == "M_INVALID_USERNAME"@ {
        Some(ErrCode::InvalidUsername)
    } else if s == "M_ROOM_IN_USE"@ {
        Some(ErrCode::RoomInUse)
    } else if s == "M_INVALID_ROOM_STATE"@ {
        Some(ErrCode::InvalidRoomState)
    } else if s == "M_THREEPID_IN_USE"@ {
        Some(ErrCode::ThreepidInUse)
    } else if s == "M_THREEPID_NOT_FOUND"@ {
        Some(ErrCode::ThreepidNotFound)
    } else if s == "M_THREEPID_AUTH_FAILED"@ {
        Some(ErrCode::ThreepidAuthFailed)
    } else if s == "M_THREEPID_DENIED"@ {
        Some(ErrCode::ThreepidDenied)
    } else if s == "M_SERVER_NOT_TRUSTED"@ {
        Some(ErrCode::ServerNotTrusted)
    } else if s == "M_UNSUPPORTED_ROOM_VERSION"@ {
        Some(ErrCode::UnsupportedRoomVersion)
    } else if s == "M_INCOMPATIBLE_ROOM_VERSION"@ {
        Some(ErrCode::IncompatibleRoomVersion)
    } else if s == "M_BAD_STATE"@ {
        Some(ErrCode::BadState)
    } else if s == "M_GUEST_ACCESS_FORBIDDEN"@ {
        Some(ErrCode::GuestAccessForbidden)
    } else if s == "M_CAPTCHA_NEEDED"@ {
        Some(ErrCode::CaptchaNeeded)
    } else if s == "M_CAPTCHA_INVALID"@ {
        Some(ErrCode::CaptchaInvalid)
    } else if s == "M_MISSING_PARAM"@ {
        Some(ErrCode::MissingParam)
    } else if s == "M_INVALID_PARAM"@ {
        Some(ErrCode::InvalidParam)
    } else if s == "M_TOO_LARGE"@ {
        Some(ErrCode::TooLarge)
    } else if s == "M_EXCLUSIVE"@ {
        Some(ErrCode::Exclusive)
    } else if s == "M_RESOURCE_LIMIT_EXCEEDED"@ {
        Some(ErrCode::ResourceLimitExceeded)
    } else if s == "M_CANNOT_LEAVE_SERVER_NOTICE_ROOM"@ {
        Some(ErrCode::CannotLeaveServerNoticeRoom)
    } else if s == "M_WEAK_PASSWORD"@ {
        Some(ErrCode::WeakPassword)
    } else if s == "M_UNABLE_TO_AUTHORIZE_JOIN"@ {
        Some(ErrCode::UnableToAuthorizeJoin)
    } else if s == "M_UNABLE_TO_GRANT_JOIN"@ {
        Some(ErrCode::UnableToGrantJoin)
    } else if s == "M_BAD_ALIAS"@ {
        Some(ErrCode::BadAlias)
    } else if s == "M_DUPLICATE_ANNOTATION"@ {
        Some(ErrCode::DuplicateAnnotation)
    } else if s == "FI.MAU.MSC2246_NOT_YET_UPLOADED"@ {
        Some(ErrCode::NotYetUploaded)
    } else if s == "M_NOT_YET_UPLOADED"@ {
        Some(ErrCode::NotYetUploaded)
    } else if s == "FI.MAU.MSC2246_CANNOT_OVERWRITE_MEDIA"@ {
        Some(ErrCode::CannotOverwriteMedia)
    } else if s == "M_CANNOT_OVERWRITE_MEDIA"@ {
        Some(ErrCode::CannotOverwriteMedia)
    } else if s == "M_URL_NOT_SET"@ {
        Some(ErrCode::UrlNotSet)
    } else if s == "M_BAD_STATUS"@ {
        Some(ErrCode::BadStatus)
    } else if s == "M_CONNECTION_FAILED"@ {
        Some(ErrCode::ConnectionFailed)
    } else if s == "M_CONNECTION_TIMEOUT"@ {
        Some(ErrCode::ConnectionTimeout)
    } else if s == "M_WRONG_ROOM_KEYS_VERSION"@ {
        Some(ErrCode::WrongRoomKeysVersion)
    } else {
        None
    }
}

impl ErrCode {
    /// Parses an error code from its text; unknown codes are kept verbatim.
    pub fn parse(s: String) -> (r: ErrCode)
        ensures
            errcode_parsed(r, s@),
    {
        if str_eq(s.as_str(), "M_FORBIDDEN") {
            ErrCode::Forbidden
        } else if str_eq(s.as_str(), "M_UNKNOWN_TOKEN") {
            ErrCode::UnknownToken
        } else if str_eq(s.as_str(), "M_MISSING_TOKEN") {
            ErrCode::MissingToken
        } else if str_eq(s.as_str(), "M_BAD_JSON") {
            ErrCode::BadJson
        } else if str_eq(s.as_str(), "M_NOT_JSON") {
            ErrCode::NotJson
        } else if str_eq(s.as_str(), "M_NOT_FOUND") {
            ErrCode::NotFound
        } else if str_eq(s.as_str(), "M_LIMIT_EXCEEDED") {
            ErrCode::LimitExceeded
        } else if str_eq(s.as_str(), "M_UNKNOWN") {
            ErrCode::Unknown
        } else if str_eq(s.as_str(), "M_UNRECOGNIZED") {
            ErrCode::Unrecognized
        } else if str_eq(s.as_str(), "M_UNAUTHORIZED") {
            ErrCode::Unauthorized
        } else if str_eq(s.as_str(), "M_USER_DEACTIVATED") {
            ErrCode::UserDeactivated
        } else if str_eq(s.as_str(), "M_USER_IN_USE") {
            ErrCode::UserInUse
        } else if str_eq(s.as_str(), "M_INVALID_USERNAME") {
            ErrCode::InvalidUsername
        } else if str_eq(s.as_str(), "M_ROOM_IN_USE") {
            ErrCode::RoomInUse
        } else if str_eq(s.as_str(), "M_INVALID_ROOM_STATE") {
            ErrCode::InvalidRoomState
        } else if str_eq(s.as_str(), "M_THREEPID_IN_USE") {
            ErrCode::ThreepidInUse
        } else if str_eq(s.as_str(), "M_THREEPID_NOT_FOUND") {
            ErrCode::ThreepidNotFound
        } else if str_eq(s.as_str(), "M_THREEPID_AUTH_FAILED") {
            ErrCode::ThreepidAuthFailed
        } else if str_eq(s.as_str(), "M_THREEPID_DENIED") {
            ErrCode::ThreepidDenied
        } else if str_eq(s.as_str(), "M_SERVER_NOT_TRUSTED") {
            ErrCode::ServerNotTrusted
        } else if str_eq(s.as_str(), "M_UNSUPPORTED_ROOM_VERSION") {
            ErrCode::UnsupportedRoomVersion
        } else if str_eq(s.as_str(), "M_INCOMPATIBLE_ROOM_VERSION") {
            ErrCode::IncompatibleRoomVersion
        } else if str_eq(s.as_str(), "M_BAD_STATE") {
            ErrCode::BadState
        } else if str_eq(s.as_str(), "M_GUEST_ACCESS_FORBIDDEN") {
            ErrCode::GuestAccessForbidden
        } else if str_eq(s.as_str(), "M_CAPTCHA_NEEDED") {
            ErrCode::CaptchaNeeded
        } else if str_eq(s.as_str(), "M_CAPTCHA_INVALID") {
            ErrCode::CaptchaInvalid
        } else if str_eq(s.as_str(), "M_MISSING_PARAM") {
            ErrCode::MissingParam
        } else if str_eq(s.as_str(), "M_INVALID_PARAM") {
            ErrCode::InvalidParam
        } else if str_eq(s.as_str(), "M_TOO_LARGE") {
            ErrCode::TooLarge
        } else if str_eq(s.as_str(), "M_EXCLUSIVE") {
            ErrCode::Exclusive
        } else if str_eq(s.as_str(), "M_RESOURCE_LIMIT_EXCEEDED") {
            ErrCode::ResourceLimitExceeded
        } else if str_eq(s.as_str(), "M_CANNOT_LEAVE_SERVER_NOTICE_ROOM") {
            ErrCode::CannotLeaveServerNoticeRoom
        } else if str_eq(s.as_str(), "M_WEAK_PASSWORD") {
            ErrCode::WeakPassword
        } else if str_eq(s.as_str(), "M_UNABLE_TO_AUTHORIZE_JOIN") {
            ErrCode::UnableToAuthorizeJoin
        } else if str_eq(s.as_str(), "M_UNABLE_TO_GRANT_JOIN") {
            ErrCode::UnableToGrantJoin
        } else if str_eq(s.as_str(), "M_BAD_ALIAS") {
            ErrCode::BadAlias
        } else if str_eq(s.as_str(), "M_DUPLICATE_ANNOTATION") {
            ErrCode::DuplicateAnnotation
        } else if str_eq(s.as_str(), "FI.MAU.MSC2246_NOT_YET_UPLOADED") {
            ErrCode::NotYetUploaded
        } else if str_eq(s.as_str(), "M_NOT_YET_UPLOADED") {
            ErrCode::NotYetUploaded
        } else if str_eq(s.as_str(), "FI.MAU.MSC2246_CANNOT_OVERWRITE_MEDIA") {
            ErrCode::CannotOverwriteMedia
        } else if str_eq(s.as_str(), "M_CANNOT_OVERWRITE_MEDIA") {
            ErrCode::CannotOverwriteMedia
        } else if str_eq(s.as_str(), "M_URL_NOT_SET") {
            ErrCode::UrlNotSet
        } else if str_eq(s.as_str(), "M_BAD_STATUS") {
            ErrCode::BadStatus
        } else if str_eq(s.as_str(), "M_CONNECTION_FAILED") {
            ErrCode::ConnectionFailed
        } else if str_eq(s.as_str(), "M_CONNECTION_TIMEOUT") {
            ErrCode::ConnectionTimeout
        } else if str_eq(s.as_str(), "M_WRONG_ROOM_KEYS_VERSION") {
            ErrCode::WrongRoomKeysVersion
        } else {
            ErrCode::_Custom(PrivOwnedStr(s))
        }
    }
}

/// `code` is what [`ErrCode::parse`] gives for the text `s`.
pub open spec fn errcode_parsed(code: ErrCode, s: Seq<char>) -> bool {
    match known_errcode(s) {
        Some(c) => code == c,
        None => (code matches ErrCode::_Custom(p) && p@ == s),
    }
}

/// A room version identifier: a known version, or a text that ruma's check
/// of room version identifiers accepts.
#[derive(Debug, PartialEq, Eq)]
pub struct RoomVersionId {
    id: String,
}

impl View for RoomVersionId {
    type V = Seq<char>;

    closed spec fn view(&self) -> Seq<char> {
        self.id@
    }
}

impl RoomVersionId {
    #[verifier::type_invariant]
    spec fn accepted(self) -> bool {
        room_version_accepted(self.id@)
    }

    /// The identifier `s`, if it is one.
    pub fn parse(s: String) -> (r: Option<RoomVersionId>)
        ensures
            r is Some <==> room_version_accepted(s@),
            r matches Some(v) ==> v@ == s@,
    {
        if accept_room_version(s.as_str()) {
            Some(RoomVersionId { id: s })
        } else {
            None
        }
    }

    /// The text of the identifier.
    pub fn as_str(&self) -> (r: &str)
        ensures
            r@ == self@,
            room_version_accepted(r@),
    {
        proof {
            use_type_invariant(self);
        }
        self.id.as_str()
    }
}

/// An HTTP status code: a number from 100 to 999.
#[derive(Debug, PartialEq, Eq)]
pub struct StatusCode {
    code: u16,
}

impl View for StatusCode {
    type V = u16;

    closed spec fn view(&self) -> u16 {
        self.code
    }
}

impl StatusCode {
    #[verifier::type_invariant]
    spec fn in_range(self) -> bool {
        100 <= self.code < 1000
    }

    /// The status code `n`, if it is one.
    pub fn from_u16(n: u16) -> (r: Option<StatusCode>)
        ensures
            r is Some <==> 100 <= n < 1000,
            r matches Some(c) ==> c@ == n,
    {
        if 100 <= n && n < 1000 {
            Some(StatusCode { code: n })
        } else {
            None
        }
    }

    /// The number of the status code.
    pub fn as_u16(&self) -> (r: u16)
        ensures
            r == self@,
            100 <= r < 1000,
    {
        proof {
            use_type_invariant(self);
        }
        self.code
    }
}

/// The kind of an error a homeserver reports.
#[derive(Debug, PartialEq)]
pub enum ErrorKind {
    Forbidden,
    UnknownToken {
        soft_logout: bool,
    },
    MissingToken,
    BadJson,
    NotJson,
    NotFound,
    LimitExceeded {
        retry_after_ms: Option<Duration>,
    },
    Unknown,
    Unrecognized,
    Unauthorized,
    UserDeactivated,
    UserInUse,
    InvalidUsername,
    RoomInUse,
    InvalidRoomState,
    ThreepidInUse,
    ThreepidNotFound,
    ThreepidAuthFailed,
    ThreepidDenied,
    ServerNotTrusted,
    UnsupportedRoomVersion,
    IncompatibleRoomVersion {
        room_version: RoomVersionId,
    },
    BadState,
    GuestAccessForbidden,
    CaptchaNeeded,
    CaptchaInvalid,
    MissingParam,
    InvalidParam,
    TooLarge,
    Exclusive,
    ResourceLimitExceeded {
        admin_contact: String,
    },
    CannotLeaveServerNoticeRoom,
    WeakPassword,
    UnableToAuthorizeJoin,
    UnableToGrantJoin,
    BadAlias,
    DuplicateAnnotation,
    NotYetUploaded,
    CannotOverwriteMedia,
    UrlNotSet,
    BadStatus {
        status: Option<StatusCode>,
        body: Option<String>,
    },
    ConnectionFailed,
    ConnectionTimeout,
    WrongRoomKeysVersion {
        current_version: Option<String>,
    },
    /// Any other error code, with the fields that came with it.
    _Custom {
        errcode: PrivOwnedStr,
        extra: Extra,
    },
}

/// The mathematical view of an [`ErrorKind`].
pub enum ErrorKindView {
    Forbidden,
    UnknownToken {
        soft_logout: bool,
    },
    MissingToken,
    BadJson,
    NotJson,
    NotFound,
    LimitExceeded {
        retry_after_ms: Option<Duration>,
    },
    Unknown,
    Unrecognized,
    Unauthorized,
    UserDeactivated,
    UserInUse,
    InvalidUsername,
    RoomInUse,
    InvalidRoomState,
    ThreepidInUse,
    ThreepidNotFound,
    ThreepidAuthFailed,
    ThreepidDenied,
    ServerNotTrusted,
    UnsupportedRoomVersion,
    IncompatibleRoomVersion {
        room_version: Seq<char>,
    },
    BadState,
    GuestAccessForbidden,
    CaptchaNeeded,
    CaptchaInvalid,
    MissingParam,
    InvalidParam,
    TooLarge,
    Exclusive,
    ResourceLimitExceeded {
        admin_contact: Seq<char>,
    },
    CannotLeaveServerNoticeRoom,
    WeakPassword,
    UnableToAuthorizeJoin,
    UnableToGrantJoin,
    BadAlias,
    DuplicateAnnotation,
    NotYetUploaded,
    CannotOverwriteMedia,
    UrlNotSet,
    BadStatus {
        status: Option<u16>,
        body: Option<Seq<char>>,
    },
    ConnectionFailed,
    ConnectionTimeout,
    WrongRoomKeysVersion {
        current_version: Option<Seq<char>>,
    },
    _Custom {
        errcode: Seq<char>,
        extra: Seq<(Seq<char>, JsonView)>,
    },
}

impl View for ErrorKind {
    type V = ErrorKindView;

    open spec fn view(&self) -> ErrorKindView {
        match self {
            ErrorKind::Forbidden => ErrorKindView::Forbidden,
            ErrorKind::UnknownToken { soft_logout } => ErrorKindView::UnknownToken { soft_logout: *soft_logout },
            ErrorKind::MissingToken => ErrorKindView::MissingToken,
            ErrorKind::BadJson => ErrorKindView::BadJson,
            ErrorKind::NotJson => ErrorKindView::NotJson,
            ErrorKind::NotFound => ErrorKindView::NotFound,
            ErrorKind::LimitExceeded { retry_after_ms } => ErrorKindView::LimitExceeded { retry_after_ms: *retry_after_ms },
            ErrorKind::Unknown => ErrorKindView::Unknown,
            ErrorKind::Unrecognized => ErrorKindView::Unrecognized,
            ErrorKind::Unauthorized => ErrorKindView::Unauthorized,
            ErrorKind::UserDeactivated => ErrorKindView::UserDeactivated,
            ErrorKind::UserInUse => ErrorKindView::UserInUse,
            ErrorKind::InvalidUsername => ErrorKindView::InvalidUsername,
            ErrorKind::RoomInUse => ErrorKindView::RoomInUse,
            ErrorKind::InvalidRoomState => ErrorKindView::InvalidRoomState,
            ErrorKind::ThreepidInUse => ErrorKindView::ThreepidInUse,
            ErrorKind::ThreepidNotFound => ErrorKindView::ThreepidNotFound,
            ErrorKind::ThreepidAuthFailed => ErrorKindView::ThreepidAuthFailed,
            ErrorKind::ThreepidDenied => ErrorKindView::ThreepidDenied,
            ErrorKind::ServerNotTrusted => ErrorKindView::ServerNotTrusted,
            ErrorKind::UnsupportedRoomVersion => ErrorKindView::UnsupportedRoomVersion,
            ErrorKind::IncompatibleRoomVersion { room_version } => ErrorKindView::IncompatibleRoomVersion { room_version: room_version@ },
            ErrorKind::BadState => ErrorKindView::BadState,
            ErrorKind::GuestAccessForbidden => ErrorKindView::GuestAccessForbidden,
            ErrorKind::CaptchaNeeded => ErrorKindView::CaptchaNeeded,
            ErrorKind::CaptchaInvalid => ErrorKindView::CaptchaInvalid,
            ErrorKind::MissingParam => ErrorKindView::MissingParam,
            ErrorKind::InvalidParam => ErrorKindView::InvalidParam,
            ErrorKind::TooLarge => ErrorKindView::TooLarge,
            ErrorKind::Exclusive => ErrorKindView::Exclusive,
            ErrorKind::ResourceLimitExceeded { admin_contact } => ErrorKindView::ResourceLimitExceeded { admin_contact: admin_contact@ },
            ErrorKind::CannotLeaveServerNoticeRoom => ErrorKindView::CannotLeaveServerNoticeRoom,
            ErrorKind::WeakPassword => ErrorKindView::WeakPassword,
            ErrorKind::UnableToAuthorizeJoin => ErrorKindView::UnableToAuthorizeJoin,
            ErrorKind::UnableToGrantJoin => ErrorKindView::UnableToGrantJoin,
            ErrorKind::BadAlias => ErrorKindView::BadAlias,
            ErrorKind::DuplicateAnnotation => ErrorKindView::DuplicateAnnotation,
            ErrorKind::NotYetUploaded => ErrorKindView::NotYetUploaded,
            ErrorKind::CannotOverwriteMedia => ErrorKindView::CannotOverwriteMedia,
            ErrorKind::UrlNotSet => ErrorKindView::UrlNotSet,
            ErrorKind::BadStatus { status, body } => ErrorKindView::BadStatus {
                status: match status {
                    Some(c) => Some(c@),
                    None => None,
                },
                body: match body {
                    Some(b) => Some(b@),
                    None => None,
                },
            },
            ErrorKind::ConnectionFailed => ErrorKindView::ConnectionFailed,
            ErrorKind::ConnectionTimeout => ErrorKindView::ConnectionTimeout,
            ErrorKind::WrongRoomKeysVersion { current_version } => ErrorKindView::WrongRoomKeysVersion {
                current_version: match current_version {
                    Some(c) => Some(c@),
                    None => None,
                },
            },
            ErrorKind::_Custom { errcode, extra } => ErrorKindView::_Custom { errcode: errcode@, extra: extra@ },
        }
    }
}

/// The text of the error code of a kind, as it is sent in `errcode`.
pub open spec fn errcode_str(k: ErrorKindView) -> Seq<char> {
    match k {
        ErrorKindView::Forbidden => "M_FORBIDDEN"@,
        ErrorKindView::UnknownToken { .. } => "M_UNKNOWN_TOKEN"@,
        ErrorKindView::MissingToken => "M_MISSING_TOKEN"@,
        ErrorKindView::BadJson => "M_BAD_JSON"@,
        ErrorKindView::NotJson => "M_NOT_JSON"@,
        ErrorKindView::NotFound => "M_NOT_FOUND"@,
        ErrorKindView::LimitExceeded { .. } => "M_LIMIT_EXCEEDED"@,
        ErrorKindView::Unknown => "M_UNKNOWN"@,
        ErrorKindView::Unrecognized => "M_UNRECOGNIZED"@,
        ErrorKindView::Unauthorized => "M_UNAUTHORIZED"@,
        ErrorKindView::UserDeactivated => "M_USER_DEACTIVATED"@,
        ErrorKindView::UserInUse => "M_USER_IN_USE"@,
        ErrorKindView::InvalidUsername => "M_INVALID_USERNAME"@,
        ErrorKindView::RoomInUse => "M_ROOM_IN_USE"@,
        ErrorKindView::InvalidRoomState => "M_INVALID_ROOM_STATE"@,
        ErrorKindView::ThreepidInUse => "M_THREEPID_IN_USE"@,
        ErrorKindView::ThreepidNotFound => "M_THREEPID_NOT_FOUND"@,
        ErrorKindView::ThreepidAuthFailed => "M_THREEPID_AUTH_FAILED"@,
        ErrorKindView::ThreepidDenied => "M_THREEPID_DENIED"@,
        ErrorKindView::ServerNotTrusted => "M_SERVER_NOT_TRUSTED"@,
        ErrorKindView::UnsupportedRoomVersion => "M_UNSUPPORTED_ROOM_VERSION"@,
        ErrorKindView::IncompatibleRoomVersion { .. } => "M_INCOMPATIBLE_ROOM_VERSION"@,
        ErrorKindView::BadState => "M_BAD_STATE"@,
        ErrorKindView::GuestAccessForbidden => "M_GUEST_ACCESS_FORBIDDEN"@,
        ErrorKindView::CaptchaNeeded => "M_CAPTCHA_NEEDED"@,
        ErrorKindView::CaptchaInvalid => "M_CAPTCHA_INVALID"@,
        ErrorKindView::MissingParam => "M_MISSING_PARAM"@,
        ErrorKindView::InvalidParam => "M_INVALID_PARAM"@,
        ErrorKindView::TooLarge => "M_TOO_LARGE"@,
        ErrorKindView::Exclusive => "M_EXCLUSIVE"@,
        ErrorKindView::ResourceLimitExceeded { .. } => "M_RESOURCE_LIMIT_EXCEEDED"@,
        ErrorKindView::CannotLeaveServerNoticeRoom => "M_CANNOT_LEAVE_SERVER_NOTICE_ROOM"@,
        ErrorKindView::WeakPassword => "M_WEAK_PASSWORD"@,
        ErrorKindView::UnableToAuthorizeJoin => "M_UNABLE_TO_AUTHORISE_JOIN"@,
        ErrorKindView::UnableToGrantJoin => "M_UNABLE_TO_GRANT_JOIN"@,
        ErrorKindView::BadAlias => "M_BAD_ALIAS"@,
        ErrorKindView::DuplicateAnnotation => "M_DUPLICATE_ANNOTATION"@,
        ErrorKindView::NotYetUploaded => "M_NOT_YET_UPLOADED"@,
        ErrorKindView::CannotOverwriteMedia => "M_CANNOT_OVERWRITE_MEDIA"@,
        ErrorKindView::UrlNotSet => "M_URL_NOT_SET"@,
        ErrorKindView::BadStatus { .. } => "M_BAD_STATUS"@,
        ErrorKindView::ConnectionFailed => "M_CONNECTION_FAILED"@,
        ErrorKindView::ConnectionTimeout => "M_CONNECTION_TIMEOUT"@,
        ErrorKindView::WrongRoomKeysVersion { .. } => "M_WRONG_ROOM_KEYS_VERSION"@,
        ErrorKindView::_Custom { errcode, .. } => errcode,
    }
}

/// The listed error code of a kind; `None` for a kind outside the list.
pub open spec fn errcode_of(k: ErrorKindView) -> Option<ErrCode> {
    match k {
        ErrorKindView::Forbidden => Some(ErrCode::Forbidden),
        ErrorKindView::UnknownToken { .. } => Some(ErrCode::UnknownToken),
        ErrorKindView::MissingToken => Some(ErrCode::MissingToken),
        ErrorKindView::BadJson => Some(ErrCode::BadJson),
        ErrorKindView::NotJson => Some(ErrCode::NotJson),
        ErrorKindView::NotFound => Some(ErrCode::NotFound),
        ErrorKindView::LimitExceeded { .. } => Some(ErrCode::LimitExceeded),
        ErrorKindView::Unknown => Some(ErrCode::Unknown),
        ErrorKindView::Unrecognized => Some(ErrCode::Unrecognized),
        ErrorKindView::Unauthorized => Some(ErrCode::Unauthorized),
        ErrorKindView::UserDeactivated => Some(ErrCode::UserDeactivated),
        ErrorKindView::UserInUse => Some(ErrCode::UserInUse),
        ErrorKindView::InvalidUsername => Some(ErrCode::InvalidUsername),
        ErrorKindView::RoomInUse => Some(ErrCode::RoomInUse),
        ErrorKindView::InvalidRoomState => Some(ErrCode::InvalidRoomState),
        ErrorKindView::ThreepidInUse => Some(ErrCode::ThreepidInUse),
        ErrorKindView::ThreepidNotFound => Some(ErrCode::ThreepidNotFound),
        ErrorKindView::ThreepidAuthFailed => Some(ErrCode::ThreepidAuthFailed),
        ErrorKindView::ThreepidDenied => Some(ErrCode::ThreepidDenied),
        ErrorKindView::ServerNotTrusted => Some(ErrCode::ServerNotTrusted),
        ErrorKindView::UnsupportedRoomVersion => Some(ErrCode::UnsupportedRoomVersion),
        ErrorKindView::IncompatibleRoomVersion { .. } => Some(ErrCode::IncompatibleRoomVersion),
        ErrorKindView::BadState => Some(ErrCode::BadState),
        ErrorKindView::GuestAccessForbidden => Some(ErrCode::GuestAccessForbidden),
        ErrorKindView::CaptchaNeeded => Some(ErrCode::CaptchaNeeded),
        ErrorKindView::CaptchaInvalid => Some(ErrCode::CaptchaInvalid),
        ErrorKindView::MissingParam => Some(ErrCode::MissingParam),
        ErrorKindView::InvalidParam => Some(ErrCode::InvalidParam),
        ErrorKindView::TooLarge => Some(ErrCode::TooLarge),
        ErrorKindView::Exclusive => Some(ErrCode::Exclusive),
        ErrorKindView::ResourceLimitExceeded { .. } => Some(ErrCode::ResourceLimitExceeded),
        ErrorKindView::CannotLeaveServerNoticeRoom => Some(ErrCode::CannotLeaveServerNoticeRoom),
        ErrorKindView::WeakPassword => Some(ErrCode::WeakPassword),
        ErrorKindView::UnableToAuthorizeJoin => Some(ErrCode::UnableToAuthorizeJoin),
        ErrorKindView::UnableToGrantJoin => Some(ErrCode::UnableToGrantJoin),
        ErrorKindView::BadAlias => Some(ErrCode::BadAlias),
        ErrorKindView::DuplicateAnnotation => Some(ErrCode::DuplicateAnnotation),
        ErrorKindView::NotYetUploaded => Some(ErrCode::NotYetUploaded),
        ErrorKindView::CannotOverwriteMedia => Some(ErrCode::CannotOverwriteMedia),
        ErrorKindView::UrlNotSet => Some(ErrCode::UrlNotSet),
        ErrorKindView::BadStatus { .. } => Some(ErrCode::BadStatus),
        ErrorKindView::ConnectionFailed => Some(ErrCode::ConnectionFailed),
        ErrorKindView::ConnectionTimeout => Some(ErrCode::ConnectionTimeout),
        ErrorKindView::WrongRoomKeysVersion { .. } => Some(ErrCode::WrongRoomKeysVersion),
        ErrorKindView::_Custom { .. } => None,
    }
}

impl ErrorKind {
    /// The error code of this kind, as sent in `errcode`.
    pub fn as_ref(&self) -> (r: &str)
        ensures
            r@ == errcode_str(self@),
    {
        match self {
            ErrorKind::Forbidden => "M_FORBIDDEN",
            ErrorKind::UnknownToken { .. } => "M_UNKNOWN_TOKEN",
            ErrorKind::MissingToken => "M_MISSING_TOKEN",
            ErrorKind::BadJson => "M_BAD_JSON",
            ErrorKind::NotJson => "M_NOT_JSON",
            ErrorKind::NotFound => "M_NOT_FOUND",
            ErrorKind::LimitExceeded { .. } => "M_LIMIT_EXCEEDED",
            ErrorKind::Unknown => "M_UNKNOWN",
            ErrorKind::Unrecognized => "M_UNRECOGNIZED",
            ErrorKind::Unauthorized => "M_UNAUTHORIZED",
            ErrorKind::UserDeactivated => "M_USER_DEACTIVATED",
            ErrorKind::UserInUse => "M_USER_IN_USE",
            ErrorKind::InvalidUsername => "M_INVALID_USERNAME",
            ErrorKind::RoomInUse => "M_ROOM_IN_USE",
            ErrorKind::InvalidRoomState => "M_INVALID_ROOM_STATE",
            ErrorKind::ThreepidInUse => "M_THREEPID_IN_USE",
            ErrorKind::ThreepidNotFound => "M_THREEPID_NOT_FOUND",
            ErrorKind::ThreepidAuthFailed => "M_THREEPID_AUTH_FAILED",
            ErrorKind::ThreepidDenied => "M_THREEPID_DENIED",
            ErrorKind::ServerNotTrusted => "M_SERVER_NOT_TRUSTED",
            ErrorKind::UnsupportedRoomVersion => "M_UNSUPPORTED_ROOM_VERSION",
            ErrorKind::IncompatibleRoomVersion { .. } => "M_INCOMPATIBLE_ROOM_VERSION",
            ErrorKind::BadState => "M_BAD_STATE",
            ErrorKind::GuestAccessForbidden => "M_GUEST_ACCESS_FORBIDDEN",
            ErrorKind::CaptchaNeeded => "M_CAPTCHA_NEEDED",
            ErrorKind::CaptchaInvalid => "M_CAPTCHA_INVALID",
            ErrorKind::MissingParam => "M_MISSING_PARAM",
            ErrorKind::InvalidParam => "M_INVALID_PARAM",
            ErrorKind::TooLarge => "M_TOO_LARGE",
            ErrorKind::Exclusive => "M_EXCLUSIVE",
            ErrorKind::ResourceLimitExceeded { .. } => "M_RESOURCE_LIMIT_EXCEEDED",
            ErrorKind::CannotLeaveServerNoticeRoom => "M_CANNOT_LEAVE_SERVER_NOTICE_ROOM",
            ErrorKind::WeakPassword => "M_WEAK_PASSWORD",
            ErrorKind::UnableToAuthorizeJoin => "M_UNABLE_TO_AUTHORISE_JOIN",
            ErrorKind::UnableToGrantJoin => "M_UNABLE_TO_GRANT_JOIN",
            ErrorKind::BadAlias => "M_BAD_ALIAS",
            ErrorKind::DuplicateAnnotation => "M_DUPLICATE_ANNOTATION",
            ErrorKind::NotYetUploaded => "M_NOT_YET_UPLOADED",
            ErrorKind::CannotOverwriteMedia => "M_CANNOT_OVERWRITE_MEDIA",
            ErrorKind::UrlNotSet => "M_URL_NOT_SET",
            ErrorKind::BadStatus { .. } => "M_BAD_STATUS",
            ErrorKind::ConnectionFailed => "M_CONNECTION_FAILED",
            ErrorKind::ConnectionTimeout => "M_CONNECTION_TIMEOUT",
            ErrorKind::WrongRoomKeysVersion { .. } => "M_WRONG_ROOM_KEYS_VERSION",
            ErrorKind::_Custom { errcode, .. } => errcode.as_str(),
        }
    }
}

/// What went wrong reading an error object.
#[derive(Debug, PartialEq)]
pub enum DeError {
    /// A known field occurred twice.
    DuplicateField(FieldName),
    /// Some other key occurred twice.
    DuplicateExtraField(String),
    /// A field that the error code needs is absent.
    MissingField(FieldName),
    /// A field holds a value of the wrong shape.
    InvalidValue(FieldName),
}

/// The mathematical view of a [`DeError`].
pub enum DeErrorView {
    DuplicateField(FieldName),
    DuplicateExtraField(Seq<char>),
    MissingField(FieldName),
    InvalidValue(FieldName),
}

impl View for DeError {
    type V = DeErrorView;

    open spec fn view(&self) -> DeErrorView {
        match self {
            DeError::DuplicateField(f) => DeErrorView::DuplicateField(*f),
            DeError::DuplicateExtraField(k) => DeErrorView::DuplicateExtraField(k@),
            DeError::MissingField(f) => DeErrorView::MissingField(*f),
            DeError::InvalidValue(f) => DeErrorView::InvalidValue(*f),
        }
    }
}

/// The view of the outcome of reading a kind.
pub open spec fn kind_result_view(r: Result<ErrorKind, DeError>) -> Result<ErrorKindView, DeErrorView> {
    match r {
        Ok(k) => Ok(k@),
        Err(e) => Err(e@),
    }
}

/// The view of the entries of an object.
pub open spec fn entries_view(es: Seq<(String, JsonValue)>) -> Seq<(Seq<char>, JsonView)> {
    es.map_values(|e: (String, JsonValue)| (e.0@, e.1@))
}

/// The view of an optional value.
pub open spec fn opt_view(v: Option<JsonValue>) -> Option<JsonView> {
    match v {
        Some(x) => Some(x@),
        None => None,
    }
}

/// What has been read of an error object so far: the error code text, the
/// value of each known field, and the other fields in key order.
pub struct VisitModel {
    pub errcode: Option<Seq<char>>,
    pub soft_logout: Option<JsonView>,
    pub retry_after_ms: Option<JsonView>,
    pub room_version: Option<JsonView>,
    pub admin_contact: Option<JsonView>,
    pub status: Option<JsonView>,
    pub body: Option<JsonView>,
    pub current_version: Option<JsonView>,
    pub extra: Seq<(Seq<char>, JsonView)>,
}

/// Nothing read yet.
pub open spec fn initial_visit() -> VisitModel {
    VisitModel {
        errcode: None,
        soft_logout: None,
        retry_after_ms: None,
        room_version: None,
        admin_contact: None,
        status: None,
        body: None,
        current_version: None,
        extra: Seq::empty(),
    }
}

/// The listed code `c` is the one whose kind carries the field `f`.
pub open spec fn admits(c: ErrCode, f: FieldName) -> bool {
    match f {
        FieldName::ErrCode => false,
        FieldName::SoftLogout => c is UnknownToken,
        FieldName::RetryAfterMs => c is LimitExceeded,
        FieldName::RoomVersion => c is IncompatibleRoomVersion,
        FieldName::AdminContact => c is ResourceLimitExceeded,
        FieldName::Status => c is BadStatus,
        FieldName::Body => c is BadStatus,
        FieldName::CurrentVersion => c is WrongRoomKeysVersion,
    }
}

/// A field is kept while no error code has been read yet, or when the code
/// read is the one whose kind carries the field; otherwise it is skipped.
pub open spec fn field_admitted(errcode: Option<Seq<char>>, f: FieldName) -> bool {
    match errcode {
        None => true,
        Some(t) => match known_errcode(t) {
            Some(c) => admits(c, f),
            None => false,
        },
    }
}

/// The value read so far for a known field.
pub open spec fn slot(st: VisitModel, f: FieldName) -> Option<JsonView> {
    match f {
        FieldName::ErrCode => None,
        FieldName::SoftLogout => st.soft_logout,
        FieldName::RetryAfterMs => st.retry_after_ms,
        FieldName::RoomVersion => st.room_version,
        FieldName::AdminContact => st.admin_contact,
        FieldName::Status => st.status,
        FieldName::Body => st.body,
        FieldName::CurrentVersion => st.current_version,
    }
}

/// `st` with the value `v` recorded for the known field `f`.
pub open spec fn with_slot(st: VisitModel, f: FieldName, v: JsonView) -> VisitModel {
    match f {
        FieldName::ErrCode => st,
        FieldName::SoftLogout => VisitModel { soft_logout: Some(v), ..st },
        FieldName::RetryAfterMs => VisitModel { retry_after_ms: Some(v), ..st },
        FieldName::RoomVersion => VisitModel { room_version: Some(v), ..st },
        FieldName::AdminContact => VisitModel { admin_contact: Some(v), ..st },
        FieldName::Status => VisitModel { status: Some(v), ..st },
        FieldName::Body => VisitModel { body: Some(v), ..st },
        FieldName::CurrentVersion => VisitModel { current_version: Some(v), ..st },
    }
}

/// Reads one entry of an error object.
pub open spec fn visit_step(st: VisitModel, key: Seq<char>, value: JsonView) -> Result<
    VisitModel,
    DeErrorView,
> {
    match known_field(key) {
        Some(FieldName::ErrCode) => if st.errcode is Some {
            Err(DeErrorView::DuplicateField(FieldName::ErrCode))
        } else {
            match value {
                JsonView::String(t) => Ok(VisitModel { errcode: Some(t), ..st }),
                _ => Err(DeErrorView::InvalidValue(FieldName::ErrCode)),
            }
        },
        Some(f) => if field_admitted(st.errcode, f) {
            if slot(st, f) is Some {
                Err(DeErrorView::DuplicateField(f))
            } else {
                Ok(with_slot(st, f, value))
            }
        } else {
            Ok(st)
        },
        None => if has_key(st.extra, key) {
            Err(DeErrorView::DuplicateExtraField(key))
        } else {
            Ok(VisitModel { extra: sorted_insert(st.extra, key, value), ..st })
        },
    }
}

/// Reads the entries `es` in order, from the state `st`.
pub open spec fn visit_fold(st: VisitModel, es: Seq<(Seq<char>, JsonView)>) -> Result<
    VisitModel,
    DeErrorView,
>
    decreases es.len(),
{
    if es.len() == 0 {
        Ok(st)
    } else {
        match visit_step(st, es[0].0, es[0].1) {
            Ok(next) => visit_fold(next, es.drop_first()),
            Err(e) => Err(e),
        }
    }
}

/// The room versions that are accepted without further checks.
pub open spec fn known_room_version(s: Seq<char>) -> bool {
    s == "1"@ || s == "2"@ || s == "3"@ || s == "4"@ || s == "5"@ || s == "6"@ || s == "7"@ || s
        == "8"@ || s == "9"@ || s == "10"@ || s == "11"@
}

/// The room version texts accepted as a room version identifier.
pub open spec fn room_version_accepted(s: Seq<char>) -> bool {
    known_room_version(s) || room_version_id_is_valid(s)
}

/// Reads `soft_logout`; absent means `false`.
pub open spec fn unknown_token_from(v: Option<JsonView>) -> Result<ErrorKindView, DeErrorView> {
    match v {
        None => Ok(ErrorKindView::UnknownToken { soft_logout: false }),
        Some(JsonView::Bool(b)) => Ok(ErrorKindView::UnknownToken { soft_logout: b }),
        Some(_) => Err(DeErrorView::InvalidValue(FieldName::SoftLogout)),
    }
}

/// Reads `retry_after_ms`, a whole number of milliseconds, if present.
pub open spec fn limit_exceeded_from(v: Option<JsonView>) -> Result<ErrorKindView, DeErrorView> {
    match v {
        None => Ok(ErrorKindView::LimitExceeded { retry_after_ms: None }),
        Some(JsonView::Number(JsonNumberView::PosInt(ms))) => Ok(
            ErrorKindView::LimitExceeded { retry_after_ms: Some(Duration::spec_from_millis(ms)) },
        ),
        Some(_) => Err(DeErrorView::InvalidValue(FieldName::RetryAfterMs)),
    }
}

/// Reads `room_version`, which must be present.
pub open spec fn incompatible_room_version_from(v: Option<JsonView>) -> Result<
    ErrorKindView,
    DeErrorView,
> {
    match v {
        None => Err(DeErrorView::MissingField(FieldName::RoomVersion)),
        Some(JsonView::String(s)) => if room_version_accepted(s) {
            Ok(ErrorKindView::IncompatibleRoomVersion { room_version: s })
        } else {
            Err(DeErrorView::InvalidValue(FieldName::RoomVersion))
        },
        Some(_) => Err(DeErrorView::InvalidValue(FieldName::RoomVersion)),
    }
}

/// Reads `admin_contact`, which must be present.
pub open spec fn resource_limit_exceeded_from(v: Option<JsonView>) -> Result<
    ErrorKindView,
    DeErrorView,
> {
    match v {
        None => Err(DeErrorView::MissingField(FieldName::AdminContact)),
        Some(JsonView::String(s)) => Ok(ErrorKindView::ResourceLimitExceeded { admin_contact: s }),
        Some(_) => Err(DeErrorView::InvalidValue(FieldName::AdminContact)),
    }
}

/// Reads `status`: an HTTP status code from 100 to 999, if present.
pub open spec fn status_of(v: Option<JsonView>) -> Result<Option<u16>, DeErrorView> {
    match v {
        None => Ok(None),
        Some(JsonView::Number(JsonNumberView::PosInt(n))) => if 100 <= n < 1000 {
            Ok(Some(n as u16))
        } else {
            Err(DeErrorView::InvalidValue(FieldName::Status))
        },
        Some(_) => Err(DeErrorView::InvalidValue(FieldName::Status)),
    }
}

/// Reads `body`, a string, if present.
pub open spec fn body_of(v: Option<JsonView>) -> Result<Option<Seq<char>>, DeErrorView> {
    match v {
        None => Ok(None),
        Some(JsonView::String(s)) => Ok(Some(s)),
        Some(_) => Err(DeErrorView::InvalidValue(FieldName::Body)),
    }
}

/// Reads `status` and then `body`.
pub open spec fn bad_status_from(status: Option<JsonView>, body: Option<JsonView>) -> Result<
    ErrorKindView,
    DeErrorView,
> {
    match status_of(status) {
        Err(e) => Err(e),
        Ok(status) => match body_of(body) {
            Err(e) => Err(e),
            Ok(body) => Ok(ErrorKindView::BadStatus { status, body }),
        },
    }
}

/// Reads `current_version`, which must be present and may be null.
pub open spec fn wrong_room_keys_version_from(v: Option<JsonView>) -> Result<
    ErrorKindView,
    DeErrorView,
> {
    match v {
        None => Err(DeErrorView::MissingField(FieldName::CurrentVersion)),
        Some(JsonView::Null) => Ok(ErrorKindView::WrongRoomKeysVersion { current_version: None }),
        Some(JsonView::String(s)) => Ok(
            ErrorKindView::WrongRoomKeysVersion { current_version: Some(s) },
        ),
        Some(_) => Err(DeErrorView::InvalidValue(FieldName::CurrentVersion)),
    }
}

/// The kind an object with the listed error code `c` gives, read from the
/// known fields it held.
pub open spec fn finish_known(c: ErrCode, st: VisitModel) -> Result<ErrorKindView, DeErrorView> {
    match c {
        ErrCode::Forbidden => Ok(ErrorKindView::Forbidden),
        ErrCode::UnknownToken => unknown_token_from(st.soft_logout),
        ErrCode::MissingToken => Ok(ErrorKindView::MissingToken),
        ErrCode::BadJson => Ok(ErrorKindView::BadJson),
        ErrCode::NotJson => Ok(ErrorKindView::NotJson),
        ErrCode::NotFound => Ok(ErrorKindView::NotFound),
        ErrCode::LimitExceeded => limit_exceeded_from(st.retry_after_ms),
        ErrCode::Unknown => Ok(ErrorKindView::Unknown),
        ErrCode::Unrecognized => Ok(ErrorKindView::Unrecognized),
        ErrCode::Unauthorized => Ok(ErrorKindView::Unauthorized),
        ErrCode::UserDeactivated => Ok(ErrorKindView::UserDeactivated),
        ErrCode::UserInUse => Ok(ErrorKindView::UserInUse),
        ErrCode::InvalidUsername => Ok(ErrorKindView::InvalidUsername),
        ErrCode::RoomInUse => Ok(ErrorKindView::RoomInUse),
        ErrCode::InvalidRoomState => Ok(ErrorKindView::InvalidRoomState),
        ErrCode::ThreepidInUse => Ok(ErrorKindView::ThreepidInUse),
        ErrCode::ThreepidNotFound => Ok(ErrorKindView::ThreepidNotFound),
        ErrCode::ThreepidAuthFailed => Ok(ErrorKindView::ThreepidAuthFailed),
        ErrCode::ThreepidDenied => Ok(ErrorKindView::ThreepidDenied),
        ErrCode::ServerNotTrusted => Ok(ErrorKindView::ServerNotTrusted),
        ErrCode::UnsupportedRoomVersion => Ok(ErrorKindView::UnsupportedRoomVersion),
        ErrCode::IncompatibleRoomVersion => incompatible_room_version_from(st.room_version),
        ErrCode::BadState => Ok(ErrorKindView::BadState),
        ErrCode::GuestAccessForbidden => Ok(ErrorKindView::GuestAccessForbidden),
        ErrCode::CaptchaNeeded => Ok(ErrorKindView::CaptchaNeeded),
        ErrCode::CaptchaInvalid => Ok(ErrorKindView::CaptchaInvalid),
        ErrCode::MissingParam => Ok(ErrorKindView::MissingParam),
        ErrCode::InvalidParam => Ok(ErrorKindView::InvalidParam),
        ErrCode::TooLarge => Ok(ErrorKindView::TooLarge),
        ErrCode::Exclusive => Ok(ErrorKindView::Exclusive),
        ErrCode::ResourceLimitExceeded => resource_limit_exceeded_from(st.admin_contact),
        ErrCode::CannotLeaveServerNoticeRoom => Ok(ErrorKindView::CannotLeaveServerNoticeRoom),
        ErrCode::WeakPassword => Ok(ErrorKindView::WeakPassword),
        ErrCode::UnableToAuthorizeJoin => Ok(ErrorKindView::UnableToAuthorizeJoin),
        ErrCode::UnableToGrantJoin => Ok(ErrorKindView::UnableToGrantJoin),
        ErrCode::BadAlias => Ok(ErrorKindView::BadAlias),
        ErrCode::DuplicateAnnotation => Ok(ErrorKindView::DuplicateAnnotation),
        ErrCode::NotYetUploaded => Ok(ErrorKindView::NotYetUploaded),
        ErrCode::CannotOverwriteMedia => Ok(ErrorKindView::CannotOverwriteMedia),
        ErrCode::UrlNotSet => Ok(ErrorKindView::UrlNotSet),
        ErrCode::BadStatus => bad_status_from(st.status, st.body),
        ErrCode::ConnectionFailed => Ok(ErrorKindView::ConnectionFailed),
        ErrCode::ConnectionTimeout => Ok(ErrorKindView::ConnectionTimeout),
        ErrCode::WrongRoomKeysVersion => wrong_room_keys_version_from(st.current_version),
        ErrCode::_Custom(_) => Ok(ErrorKindView::_Custom { errcode: Seq::empty(), extra: st.extra }),
    }
}

/// The kind that the fields read give: the error code must have been read.
pub open spec fn visit_finish(st: VisitModel) -> Result<ErrorKindView, DeErrorView> {
    match st.errcode {
        None => Err(DeErrorView::MissingField(FieldName::ErrCode)),
        Some(t) => match known_errcode(t) {
            None => Ok(ErrorKindView::_Custom { errcode: t, extra: st.extra }),
            Some(c) => finish_known(c, st),
        },
    }
}

/// Reads an error kind from the entries of a JSON object, in order.
pub open spec fn visit_entries(es: Seq<(Seq<char>, JsonView)>) -> Result<
    ErrorKindView,
    DeErrorView,
> {
    match visit_fold(initial_visit(), es) {
        Ok(st) => visit_finish(st),
        Err(e) => Err(e),
    }
}

/// Whether an outside room version identifier check accepts a text.
pub uninterp spec fn room_version_id_is_valid(s: Seq<char>) -> bool;

/// An ASCII letter or digit, `.` or `-`.
pub open spec fn ascii_id_char(c: char) -> bool {
    ('0' <= c && c <= '9') || ('a' <= c && c <= 'z') || ('A' <= c && c <= 'Z') || c == '.' || c
        == '-'
}

/// Calls `ruma_identifiers_validation::room_version_id::validate`, which
/// accepts a text of 1 to 32 characters, each alphanumeric (in Unicode's
/// sense, `char::is_alphanumeric`) or `.` or `-`, and tells whether it
/// succeeded. The contract names the outcome and claims the length limits;
/// of the characters it claims what holds of ASCII ones, where being
/// alphanumeric means being an ASCII letter or digit. Which other characters
/// count as alphanumeric is left to the name.
#[verifier::external_body]
fn validate_room_version_id(s: &str) -> (r: bool)
    ensures
        r <==> room_version_id_is_valid(s@),
        r ==> 0 < s@.len() <= 32,
        r ==> forall|i: int|
            0 <= i < s@.len() && (#[trigger] s@[i] as u32) < 128 ==> ascii_id_char(s@[i]),
        (0 < s@.len() <= 32 && forall|i: int| 0 <= i < s@.len() ==> ascii_id_char(#[trigger] s@[i]))
            ==> r,
{
    ruma_identifiers_validation::room_version_id::validate(s).is_ok()
}

/// Checks a room version text as room version identifiers are read.
fn accept_room_version(s: &str) -> (r: bool)
    ensures
        r == room_version_accepted(s@),
{
    if str_eq(s, "1") || str_eq(s, "2") || str_eq(s, "3") || str_eq(s, "4") || str_eq(s, "5")
        || str_eq(s, "6") || str_eq(s, "7") || str_eq(s, "8") || str_eq(s, "9") || str_eq(
        s,
        "10",
    ) || str_eq(s, "11") {
        true
    } else {
        validate_room_version_id(s)
    }
}

/// Reads an error kind from the fields of a JSON object.
pub struct ErrorKindVisitor;

impl ErrCode {
    /// Whether this code's kind carries the field `f`.
    pub fn admits_field(&self, f: FieldName) -> (r: bool)
        ensures
            r == admits(*self, f),
    {
        match f {
            FieldName::ErrCode => false,
            FieldName::SoftLogout => matches!(self, ErrCode::UnknownToken),
            FieldName::RetryAfterMs => matches!(self, ErrCode::LimitExceeded),
            FieldName::RoomVersion => matches!(self, ErrCode::IncompatibleRoomVersion),
            FieldName::AdminContact => matches!(self, ErrCode::ResourceLimitExceeded),
            FieldName::Status => matches!(self, ErrCode::BadStatus),
            FieldName::Body => matches!(self, ErrCode::BadStatus),
            FieldName::CurrentVersion => matches!(self, ErrCode::WrongRoomKeysVersion),
        }
    }
}

/// The known field that a key names.
fn field_name(f: &Field) -> (r: Option<FieldName>)
    ensures
        r == f.name(),
{
    match f {
        Field::ErrCode => Some(FieldName::ErrCode),
        Field::SoftLogout => Some(FieldName::SoftLogout),
        Field::RetryAfterMs => Some(FieldName::RetryAfterMs),
        Field::RoomVersion => Some(FieldName::RoomVersion),
        Field::AdminContact => Some(FieldName::AdminContact),
        Field::Status => Some(FieldName::Status),
        Field::Body => Some(FieldName::Body),
        Field::CurrentVersion => Some(FieldName::CurrentVersion),
        Field::Other(_) => None,
    }
}

impl ErrorKindVisitor {
    fn finish_unknown_token(v: Option<JsonValue>) -> (r: Result<ErrorKind, DeError>)
        ensures
            kind_result_view(r) == unknown_token_from(opt_view(v)),
    {
        match v {
            None => Ok(ErrorKind::UnknownToken { soft_logout: false }),
            Some(JsonValue::Bool(b)) => Ok(ErrorKind::UnknownToken { soft_logout: b }),
            Some(_) => Err(DeError::InvalidValue(FieldName::SoftLogout)),
        }
    }

    fn finish_limit_exceeded(v: Option<JsonValue>) -> (r: Result<ErrorKind, DeError>)
        ensures
            kind_result_view(r) == limit_exceeded_from(opt_view(v)),
    {
        match v {
            None => Ok(ErrorKind::LimitExceeded { retry_after_ms: None }),
            Some(JsonValue::Number(JsonNumber::PosInt(ms))) => Ok(
                ErrorKind::LimitExceeded { retry_after_ms: Some(Duration::from_millis(ms)) },
            ),
            Some(_) => Err(DeError::InvalidValue(FieldName::RetryAfterMs)),
        }
    }

    fn finish_incompatible_room_version(v: Option<JsonValue>) -> (r: Result<ErrorKind, DeError>)
        ensures
            kind_result_view(r) == incompatible_room_version_from(opt_view(v)),
    {
        match v {
            None => Err(DeError::MissingField(FieldName::RoomVersion)),
            Some(JsonValue::String(s)) => {
                match RoomVersionId::parse(s) {
                    Some(room_version) => Ok(ErrorKind::IncompatibleRoomVersion { room_version }),
                    None => Err(DeError::InvalidValue(FieldName::RoomVersion)),
                }
            },
            Some(_) => Err(DeError::InvalidValue(FieldName::RoomVersion)),
        }
    }

    fn finish_resource_limit_exceeded(v: Option<JsonValue>) -> (r: Result<ErrorKind, DeError>)
        ensures
            kind_result_view(r) == resource_limit_exceeded_from(opt_view(v)),
    {
        match v {
            None => Err(DeError::MissingField(FieldName::AdminContact)),
            Some(JsonValue::String(s)) => Ok(ErrorKind::ResourceLimitExceeded { admin_contact: s }),
            Some(_) => Err(DeError::InvalidValue(FieldName::AdminContact)),
        }
    }

    fn finish_bad_status(status: Option<JsonValue>, body: Option<JsonValue>) -> (r: Result<
        ErrorKind,
        DeError,
    >)
        ensures
            kind_result_view(r) == bad_status_from(opt_view(status), opt_view(body)),
    {
        let status = match status {
            None => None,
            Some(JsonValue::Number(JsonNumber::PosInt(n))) => {
                if 100 <= n && n < 1000 {
                    StatusCode::from_u16(n as u16)
                } else {
                    return Err(DeError::InvalidValue(FieldName::Status));
                }
            },
            Some(_) => {
                return Err(DeError::InvalidValue(FieldName::Status));
            },
        };
        let body = match body {
            None => None,
            Some(JsonValue::String(s)) => Some(s),
            Some(_) => {
                return Err(DeError::InvalidValue(FieldName::Body));
            },
        };
        Ok(ErrorKind::BadStatus { status, body })
    }

    fn finish_wrong_room_keys_version(v: Option<JsonValue>) -> (r: Result<ErrorKind, DeError>)
        ensures
            kind_result_view(r) == wrong_room_keys_version_from(opt_view(v)),
    {
        match v {
            None => Err(DeError::MissingField(FieldName::CurrentVersion)),
            Some(JsonValue::Null) => Ok(ErrorKind::WrongRoomKeysVersion { current_version: None }),
            Some(JsonValue::String(s)) => Ok(
                ErrorKind::WrongRoomKeysVersion { current_version: Some(s) },
            ),
            Some(_) => Err(DeError::InvalidValue(FieldName::CurrentVersion)),
        }
    }

    /// Builds the kind once every entry has been read.
    #[verifier::rlimit(40)]
    fn finish(
        errcode: Option<ErrCode>,
        Ghost(text): Ghost<Option<Seq<char>>>,
        soft_logout: Option<JsonValue>,
        retry_after_ms: Option<JsonValue>,
        room_version: Option<JsonValue>,
        admin_contact: Option<JsonValue>,
        status: Option<JsonValue>,
        body: Option<JsonValue>,
        current_version: Option<JsonValue>,
        extra: Extra,
    ) -> (r: Result<ErrorKind, DeError>)
        requires
            errcode is None <==> text is None,
            errcode matches Some(c) ==> errcode_parsed(c, text->0),
        ensures
            kind_result_view(r) == visit_finish(
                VisitModel {
                    errcode: text,
                    soft_logout: opt_view(soft_logout),
                    retry_after_ms: opt_view(retry_after_ms),
                    room_version: opt_view(room_version),
                    admin_contact: opt_view(admin_contact),
                    status: opt_view(status),
                    body: opt_view(body),
                    current_version: opt_view(current_version),
                    extra: extra@,
                },
            ),
    {
        let code = match errcode {
            None => {
                return Err(DeError::MissingField(FieldName::ErrCode));
            },
            Some(c) => c,
        };
        match code {
            ErrCode::Forbidden => Ok(ErrorKind::Forbidden),
            ErrCode::UnknownToken => Self::finish_unknown_token(soft_logout),
            ErrCode::MissingToken => Ok(ErrorKind::MissingToken),
            ErrCode::BadJson => Ok(ErrorKind::BadJson),
            ErrCode::NotJson => Ok(ErrorKind::NotJson),
            ErrCode::NotFound => Ok(ErrorKind::NotFound),
            ErrCode::LimitExceeded => Self::finish_limit_exceeded(retry_after_ms),
            ErrCode::Unknown => Ok(ErrorKind::Unknown),
            ErrCode::Unrecognized => Ok(ErrorKind::Unrecognized),
            ErrCode::Unauthorized => Ok(ErrorKind::Unauthorized),
            ErrCode::UserDeactivated => Ok(ErrorKind::UserDeactivated),
            ErrCode::UserInUse => Ok(ErrorKind::UserInUse),
            ErrCode::InvalidUsername => Ok(ErrorKind::InvalidUsername),
            ErrCode::RoomInUse => Ok(ErrorKind::RoomInUse),
            ErrCode::InvalidRoomState => Ok(ErrorKind::InvalidRoomState),
            ErrCode::ThreepidInUse => Ok(ErrorKind::ThreepidInUse),
            ErrCode::ThreepidNotFound => Ok(ErrorKind::ThreepidNotFound),
            ErrCode::ThreepidAuthFailed => Ok(ErrorKind::ThreepidAuthFailed),
            ErrCode::ThreepidDenied => Ok(ErrorKind::ThreepidDenied),
            ErrCode::ServerNotTrusted => Ok(ErrorKind::ServerNotTrusted),
            ErrCode::UnsupportedRoomVersion => Ok(ErrorKind::UnsupportedRoomVersion),
            ErrCode::IncompatibleRoomVersion => Self::finish_incompatible_room_version(room_version),
            ErrCode::BadState => Ok(ErrorKind::BadState),
            ErrCode::GuestAccessForbidden => Ok(ErrorKind::GuestAccessForbidden),
            ErrCode::CaptchaNeeded => Ok(ErrorKind::CaptchaNeeded),
            ErrCode::CaptchaInvalid => Ok(ErrorKind::CaptchaInvalid),
            ErrCode::MissingParam => Ok(ErrorKind::MissingParam),
            ErrCode::InvalidParam => Ok(ErrorKind::InvalidParam),
            ErrCode::TooLarge => Ok(ErrorKind::TooLarge),
            ErrCode::Exclusive => Ok(ErrorKind::Exclusive),
            ErrCode::ResourceLimitExceeded => Self::finish_resource_limit_exceeded(admin_contact),
            ErrCode::CannotLeaveServerNoticeRoom => Ok(ErrorKind::CannotLeaveServerNoticeRoom),
            ErrCode::WeakPassword => Ok(ErrorKind::WeakPassword),
            ErrCode::UnableToAuthorizeJoin => Ok(ErrorKind::UnableToAuthorizeJoin),
            ErrCode::UnableToGrantJoin => Ok(ErrorKind::UnableToGrantJoin),
            ErrCode::BadAlias => Ok(ErrorKind::BadAlias),
            ErrCode::DuplicateAnnotation => Ok(ErrorKind::DuplicateAnnotation),
            ErrCode::NotYetUploaded => Ok(ErrorKind::NotYetUploaded),
            ErrCode::CannotOverwriteMedia => Ok(ErrorKind::CannotOverwriteMedia),
            ErrCode::UrlNotSet => Ok(ErrorKind::UrlNotSet),
            ErrCode::BadStatus => Self::finish_bad_status(status, body),
            ErrCode::ConnectionFailed => Ok(ErrorKind::ConnectionFailed),
            ErrCode::ConnectionTimeout => Ok(ErrorKind::ConnectionTimeout),
            ErrCode::WrongRoomKeysVersion => Self::finish_wrong_room_keys_version(current_version),
            ErrCode::_Custom(errcode) => Ok(ErrorKind::_Custom { errcode, extra }),
        }
    }

    /// Reads an error kind from the entries of a JSON object, in order.
    ///
    /// The `errcode` entry must be a string. A known field is kept while no
    /// error code has been read or when the code read is the one whose kind
    /// carries it, and skipped otherwise; a kept field may occur once. Other
    /// keys are gathered, each once. Fields that the code's kind needs must be
    /// present and of the right shape.
    pub fn visit_map(entries: Vec<(String, JsonValue)>) -> (r: Result<ErrorKind, DeError>)
        ensures
            kind_result_view(r) == visit_entries(entries_view(entries@)),
    {
        let ghost es = entries_view(entries@);
        let mut errcode: Option<ErrCode> = None;
        let ghost mut text: Option<Seq<char>> = None;
        let mut soft_logout: Option<JsonValue> = None;
        let mut retry_after_ms: Option<JsonValue> = None;
        let mut room_version: Option<JsonValue> = None;
        let mut admin_contact: Option<JsonValue> = None;
        let mut status: Option<JsonValue> = None;
        let mut body: Option<JsonValue> = None;
        let mut current_version: Option<JsonValue> = None;
        let mut extra = Extra::new();
        assert(es.skip(0) =~= es);
        for entry in it: entries
            invariant
                es == entries_view(it.seq()),
                errcode is None <==> text is None,
                errcode matches Some(c) ==> errcode_parsed(c, text->0),
                visit_fold(initial_visit(), es) == visit_fold(
                    VisitModel {
                        errcode: text,
                        soft_logout: opt_view(soft_logout),
                        retry_after_ms: opt_view(retry_after_ms),
                        room_version: opt_view(room_version),
                        admin_contact: opt_view(admin_contact),
                        status: opt_view(status),
                        body: opt_view(body),
                        current_version: opt_view(current_version),
                        extra: extra@,
                    },
                    es.skip(it.index() as int),
                ),
        {
            let ghost st = VisitModel {
                errcode: text,
                soft_logout: opt_view(soft_logout),
                retry_after_ms: opt_view(retry_after_ms),
                room_version: opt_view(room_version),
                admin_contact: opt_view(admin_contact),
                status: opt_view(status),
                body: opt_view(body),
                current_version: opt_view(current_version),
                extra: extra@,
            };
            let ghost i = it.index() as int;
            assert(es.skip(i).drop_first() =~= es.skip(i + 1));
            assert(es.skip(i)[0] == es[i]);
            let (key, value) = entry;
            assert(es[i] == (key@, value@));
            let field = Field::new(key);
            let name = field_name(&field);
            match field {
                Field::Other(k) => {
                    match extra.insert(k, value) {
                        Ok(()) => {},
                        Err(k) => {
                            return Err(DeError::DuplicateExtraField(k));
                        },
                    }
                },
                Field::ErrCode => {
                    if errcode.is_some() {
                        return Err(DeError::DuplicateField(FieldName::ErrCode));
                    }
                    match value {
                        JsonValue::String(t) => {
                            proof {
                                text = Some(t@);
                            }
                            errcode = Some(ErrCode::parse(t));
                        },
                        _ => {
                            return Err(DeError::InvalidValue(FieldName::ErrCode));
                        },
                    }
                },
                _ => {
                    let f = name.unwrap();
                    let admitted = match &errcode {
                        None => true,
                        Some(c) => c.admits_field(f),
                    };
                    if admitted {
                        let taken = match f {
                            FieldName::SoftLogout => soft_logout.is_some(),
                            FieldName::RetryAfterMs => retry_after_ms.is_some(),
                            FieldName::RoomVersion => room_version.is_some(),
                            FieldName::AdminContact => admin_contact.is_some(),
                            FieldName::Status => status.is_some(),
                            FieldName::Body => body.is_some(),
                            FieldName::CurrentVersion => current_version.is_some(),
                            FieldName::ErrCode => false,
                        };
                        if taken {
                            return Err(DeError::DuplicateField(f));
                        }
                        match f {
                            FieldName::SoftLogout => {
                                soft_logout = Some(value);
                            },
                            FieldName::RetryAfterMs => {
                                retry_after_ms = Some(value);
                            },
                            FieldName::RoomVersion => {
                                room_version = Some(value);
                            },
                            FieldName::AdminContact => {
                                admin_contact = Some(value);
                            },
                            FieldName::Status => {
                                status = Some(value);
                            },
                            FieldName::Body => {
                                body = Some(value);
                            },
                            FieldName::CurrentVersion => {
                                current_version = Some(value);
                            },
                            FieldName::ErrCode => {},
                        }
                    }
                },
            }
        }
        assert(es.skip(es.len() as int) =~= Seq::<(Seq<char>, JsonView)>::empty());
        Self::finish(
            errcode,
            Ghost(text),
            soft_logout,
            retry_after_ms,
            room_version,
            admin_contact,
            status,
            body,
            current_version,
            extra,
        )
    }
}

/// What can go wrong writing an error kind.
#[derive(Debug, PartialEq, Eq)]
pub enum SerError {
    /// The retry delay, in whole milliseconds, does not fit in 64 bits.
    RetryAfterOutOfRange,
}

/// The fields an error kind is written as, in order: `errcode` first, then
/// the kind's own fields, then for other codes their extra fields in key
/// order. `None` when the retry delay does not fit in 64 bits of milliseconds.
pub open spec fn serialize_spec(k: ErrorKindView) -> Option<Seq<(Seq<char>, JsonView)>> {
    let head = seq![("errcode"@, JsonView::String(errcode_str(k)))];
    match k {
        ErrorKindView::UnknownToken { soft_logout } => if soft_logout {
            Some(head + seq![("soft_logout"@, JsonView::Bool(true))])
        } else {
            Some(head)
        },
        ErrorKindView::LimitExceeded { retry_after_ms } => match retry_after_ms {
            Some(d) => if d.millis() <= u64::MAX {
                Some(
                    head + seq![
                        ("retry_after_ms"@, JsonView::Number(JsonNumberView::PosInt(d.millis() as u64))),
                    ],
                )
            } else {
                None
            },
            None => Some(head),
        },
        ErrorKindView::IncompatibleRoomVersion { room_version } => Some(
            head + seq![("room_version"@, JsonView::String(room_version))],
        ),
        ErrorKindView::ResourceLimitExceeded { admin_contact } => Some(
            head + seq![("admin_contact"@, JsonView::String(admin_contact))],
        ),
        ErrorKindView::_Custom { extra, .. } => Some(head + extra),
        _ => Some(head),
    }
}

/// The view of the outcome of writing a kind.
pub open spec fn ser_result_view(r: Result<Vec<(String, JsonValue)>, SerError>) -> Option<
    Seq<(Seq<char>, JsonView)>,
> {
    match r {
        Ok(v) => Some(entries_view(v@)),
        Err(_) => None,
    }
}

impl ErrorKind {
    /// Writes this kind as the fields of a JSON object: `errcode`, then the
    /// fields of the kind that carry information, then any extra fields.
    pub fn serialize(&self) -> (r: Result<Vec<(String, JsonValue)>, SerError>)
        ensures
            ser_result_view(r) == serialize_spec(self@),
    {
        let mut out: Vec<(String, JsonValue)> = Vec::new();
        out.push(("errcode".to_owned(), JsonValue::String(self.as_ref().to_owned())));
        let ghost head = entries_view(out@);
        assert(head =~= seq![("errcode"@, JsonView::String(errcode_str(self@)))]);
        match self {
            ErrorKind::UnknownToken { soft_logout } => {
                if *soft_logout {
                    out.push(("soft_logout".to_owned(), JsonValue::Bool(true)));
                }
            },
            ErrorKind::LimitExceeded { retry_after_ms } => {
                if let Some(d) = retry_after_ms {
                    let ms = d.as_millis();
                    if ms > u64::MAX as u128 {
                        return Err(SerError::RetryAfterOutOfRange);
                    }
                    out.push(
                        ("retry_after_ms".to_owned(), JsonValue::Number(JsonNumber::PosInt(ms as u64))),
                    );
                }
            },
            ErrorKind::IncompatibleRoomVersion { room_version } => {
                out.push(("room_version".to_owned(), JsonValue::String(room_version.as_str().to_owned())));
            },
            ErrorKind::ResourceLimitExceeded { admin_contact } => {
                out.push(("admin_contact".to_owned(), JsonValue::String(admin_contact.clone())));
            },
            ErrorKind::_Custom { extra, .. } => {
                let n = extra.len();
                let mut i: usize = 0;
                while i < n
                    invariant
                        n == extra@.len(),
                        i <= n,
                        entries_view(out@) == head + extra@.take(i as int),
                    decreases n - i,
                {
                    let (k, v) = extra.get(i);
                    let ghost before = out@;
                    let entry = (k.clone(), v.deep_clone());
                    assert((entry.0@, entry.1@) == extra@[i as int]);
                    out.push(entry);
                    assert(out@ == before.push(entry));
                    assert(entries_view(out@) =~= entries_view(before).push(extra@[i as int]));
                    assert(extra@.take(i + 1) =~= extra@.take(i as int).push(extra@[i as int]));
                    assert(entries_view(out@) =~= head + extra@.take(i + 1));
                    i = i + 1;
                }
                assert(extra@.take(n as int) =~= extra@);
            },
            _ => {},
        }
        proof {
            let e = entries_view(out@);
            match self@ {
                ErrorKindView::UnknownToken { soft_logout } => {
                    if soft_logout {
                        assert(e =~= head + seq![("soft_logout"@, JsonView::Bool(true))]);
                    }
                },
                ErrorKindView::LimitExceeded { retry_after_ms } => {
                    if let Some(d) = retry_after_ms {
                        assert(e =~= head + seq![
                            ("retry_after_ms"@, JsonView::Number(JsonNumberView::PosInt(d.millis() as u64))),
                        ]);
                    }
                },
                ErrorKindView::IncompatibleRoomVersion { room_version } => {
                    assert(e =~= head + seq![("room_version"@, JsonView::String(room_version))]);
                },
                ErrorKindView::ResourceLimitExceeded { admin_contact } => {
                    assert(e =~= head + seq![("admin_contact"@, JsonView::String(admin_contact))]);
                },
                _ => {},
            }
        }
        Ok(out)
    }
}

/// The body of an error response.
#[derive(Debug)]
pub enum ErrorBody {
    /// A standard error object: a kind and a message.
    Standard { kind: ErrorKind, message: String },
    /// Some other JSON document, by its JSON text.
    Json(String),
    /// A body that is not JSON, with the reason it could not be read.
    NotJson { bytes: Vec<u8>, deserialization_error: String },
}

/// A standard error object: the kind's fields and the message under `error`.
#[derive(Debug)]
pub struct StandardErrorBody {
    pub kind: ErrorKind,
    pub message: String,
}

/// An error response from a homeserver: its HTTP status and its body.
#[derive(Debug)]
pub struct Error {
    pub status_code: u16,
    pub body: ErrorBody,
}

impl ErrorBody {
    /// Reads the body of an error response from what parsing it gave: a
    /// standard error object if the body is one, else any JSON document,
    /// else the raw bytes with the parse error.
    pub fn from_parsed(
        standard: Option<StandardErrorBody>,
        json: Result<String, String>,
        bytes: Vec<u8>,
    ) -> (r: ErrorBody)
        ensures
            r == (match standard {
                Some(s) => ErrorBody::Standard { kind: s.kind, message: s.message },
                None => match json {
                    Ok(t) => ErrorBody::Json(t),
                    Err(e) => ErrorBody::NotJson { bytes, deserialization_error: e },
                },
            }),
    {
        match standard {
            Some(s) => ErrorBody::Standard { kind: s.kind, message: s.message },
            None => match json {
                Ok(t) => ErrorBody::Json(t),
                Err(e) => ErrorBody::NotJson { bytes, deserialization_error: e },
            },
        }
    }

    /// Pairs this body with the status of the response.
    pub fn into_error(self, status_code: u16) -> (r: Error)
        ensures
            r.status_code == status_code,
            r.body == self,
    {
        Error { status_code, body: self }
    }
}

/// The decimal digits of a number.
pub open spec fn decimal(n: nat) -> Seq<char>
    decreases n,
{
    if n < 10 {
        seq![digit_char(n)]
    } else {
        decimal(n / 10) + seq![digit_char(n % 10)]
    }
}

/// The character of a decimal digit.
pub open spec fn digit_char(d: nat) -> char {
    if d == 0 {
        '0'
    } else if d == 1 {
        '1'
    } else if d == 2 {
        '2'
    } else if d == 3 {
        '3'
    } else if d == 4 {
        '4'
    } else if d == 5 {
        '5'
    } else if d == 6 {
        '6'
    } else if d == 7 {
        '7'
    } else if d == 8 {
        '8'
    } else {
        '9'
    }
}

/// Appends a character to a string; calls `String::push`.
#[verifier::external_body]
fn push_char(s: &mut String, c: char)
    ensures
        final(s)@ == old(s)@.push(c),
{
    s.push(c);
}

/// Writes a number in decimal.
pub fn write_decimal(out: &mut String, n: u64)
    ensures
        final(out)@ == old(out)@ + decimal(n as nat),
    decreases n,
{
    if n >= 10 {
        write_decimal(out, n / 10);
    }
    let d = n % 10;
    let c = if d == 0 {
        '0'
    } else if d == 1 {
        '1'
    } else if d == 2 {
        '2'
    } else if d == 3 {
        '3'
    } else if d == 4 {
        '4'
    } else if d == 5 {
        '5'
    } else if d == 6 {
        '6'
    } else if d == 7 {
        '7'
    } else if d == 8 {
        '8'
    } else {
        '9'
    };
    push_char(out, c);
    proof {
        if n >= 10 {
            assert(decimal(n as nat) == decimal((n / 10) as nat) + seq![digit_char((n % 10) as nat)]);
        }
    }
    assert(final(out)@ =~= old(out)@ + decimal(n as nat));
}

/// How an error reads: the status in brackets, with the error code for a
/// standard body, then the message, the JSON text, or a note that the body
/// is not JSON.
pub open spec fn error_display(status_code: u16, body: ErrorBody) -> Seq<char> {
    match body {
        ErrorBody::Standard { kind, message } => "["@ + decimal(status_code as nat) + " / "@
            + errcode_str(kind@) + "] "@ + message@,
        ErrorBody::Json(t) => "["@ + decimal(status_code as nat) + "] "@ + t@,
        ErrorBody::NotJson { .. } => "["@ + decimal(status_code as nat) + "] <non-json bytes>"@,
    }
}

/// What an error response is sent as: the fields of a standard error
/// object, or a JSON document by its text.
#[derive(Debug)]
pub enum ResponsePayload {
    Fields(Vec<(String, JsonValue)>),
    JsonText(String),
}

/// What can go wrong turning an error into a response.
#[derive(Debug, PartialEq, Eq)]
pub enum IntoHttpError {
    /// The body was not JSON, so it cannot be sent as JSON.
    NotJson,
    /// The error kind could not be written.
    Kind(SerError),
}

/// An error ready to be sent: status, content type and payload.
#[derive(Debug)]
pub struct ErrorResponse {
    pub status_code: u16,
    pub content_type: String,
    pub payload: ResponsePayload,
}

/// `r` is a JSON response with the status `status` whose payload is the
/// JSON text `text`.
pub open spec fn json_text_response(
    r: Result<ErrorResponse, IntoHttpError>,
    status: u16,
    text: Seq<char>,
) -> bool {
    match r {
        Ok(resp) => resp.status_code == status && resp.content_type@ == "application/json"@
            && match resp.payload {
            ResponsePayload::JsonText(u) => u@ == text,
            _ => false,
        },
        Err(_) => false,
    }
}

/// `r` is a JSON response with the status `status` whose payload is an
/// object with the fields `fields`, in order.
pub open spec fn fields_response(
    r: Result<ErrorResponse, IntoHttpError>,
    status: u16,
    fields: Seq<(Seq<char>, JsonView)>,
) -> bool {
    match r {
        Ok(resp) => resp.status_code == status && resp.content_type@ == "application/json"@
            && match resp.payload {
            ResponsePayload::Fields(v) => entries_view(v@) == fields,
            _ => false,
        },
        Err(_) => false,
    }
}

impl Error {
    /// The kind of this error, when its body is a standard error object.
    pub fn error_kind(&self) -> (r: Option<&ErrorKind>)
        ensures
            r is Some <==> self.body is Standard,
            r matches Some(k) ==> (self.body matches ErrorBody::Standard { kind, .. } && *k == kind),
    {
        match &self.body {
            ErrorBody::Standard { kind, .. } => Some(kind),
            _ => None,
        }
    }

    /// How this error reads.
    pub fn fmt(&self) -> (r: String)
        ensures
            r@ == error_display(self.status_code, self.body),
    {
        let mut out = "[".to_owned();
        write_decimal(&mut out, self.status_code as u64);
        match &self.body {
            ErrorBody::Standard { kind, message } => {
                out.append(" / ");
                out.append(kind.as_ref());
                out.append("] ");
                out.append(message.as_str());
            },
            ErrorBody::Json(t) => {
                out.append("] ");
                out.append(t.as_str());
            },
            ErrorBody::NotJson { .. } => {
                out.append("] <non-json bytes>");
            },
        }
        out
    }

    /// Turns this error into a response with a JSON body: a standard body is
    /// sent as its kind's fields followed by `error`, a JSON body as it is;
    /// a body that is not JSON cannot be sent.
    pub fn try_into_http_response(self) -> (r: Result<ErrorResponse, IntoHttpError>)
        ensures
            self.body is NotJson ==> r == Err::<ErrorResponse, IntoHttpError>(IntoHttpError::NotJson),
            self.body matches ErrorBody::Json(t) ==> json_text_response(r, self.status_code, t@),
            self.body matches ErrorBody::Standard { kind, message } ==> match serialize_spec(kind@) {
                None => r == Err::<ErrorResponse, IntoHttpError>(
                    IntoHttpError::Kind(SerError::RetryAfterOutOfRange),
                ),
                Some(fields) => fields_response(
                    r,
                    self.status_code,
                    fields.push(("error"@, JsonView::String(message@))),
                ),
            },
    {
        let status_code = self.status_code;
        let payload = match self.body {
            ErrorBody::Standard { kind, message } => {
                let mut fields = match kind.serialize() {
                    Ok(f) => f,
                    Err(e) => {
                        return Err(IntoHttpError::Kind(e));
                    },
                };
                let ghost before = fields@;
                fields.push(("error".to_owned(), JsonValue::String(message)));
                assert(entries_view(fields@) =~= entries_view(before).push(
                    ("error"@, JsonView::String(message@)),
                ));
                ResponsePayload::Fields(fields)
            },
            ErrorBody::Json(t) => ResponsePayload::JsonText(t),
            ErrorBody::NotJson { .. } => {
                return Err(IntoHttpError::NotJson);
            },
        };
        Ok(ErrorResponse { status_code, content_type: "application/json".to_owned(), payload })
    }
}

/// The length of each listed error code.
#[verifier::spinoff_prover]
proof fn lemma_errcode_lengths()
    ensures
        "M_FORBIDDEN"@.len() == 11,
        "M_UNKNOWN_TOKEN"@.len() == 15,
        "M_MISSING_TOKEN"@.len() == 15,
        "M_BAD_JSON"@.len() == 10,
        "M_NOT_JSON"@.len() == 10,
        "M_NOT_FOUND"@.len() == 11,
        "M_LIMIT_EXCEEDED"@.len() == 16,
        "M_UNKNOWN"@.len() == 9,
        "M_UNRECOGNIZED"@.len() == 14,
        "M_UNAUTHORIZED"@.len() == 14,
        "M_USER_DEACTIVATED"@.len() == 18,
        "M_USER_IN_USE"@.len() == 13,
        "M_INVALID_USERNAME"@.len() == 18,
        "M_ROOM_IN_USE"@.len() == 13,
        "M_INVALID_ROOM_STATE"@.len() == 20,
        "M_THREEPID_IN_USE"@.len() == 17,
        "M_THREEPID_NOT_FOUND"@.len() == 20,
        "M_THREEPID_AUTH_FAILED"@.len() == 22,
        "M_THREEPID_DENIED"@.len() == 17,
        "M_SERVER_NOT_TRUSTED"@.len() == 20,
        "M_UNSUPPORTED_ROOM_VERSION"@.len() == 26,
        "M_INCOMPATIBLE_ROOM_VERSION"@.len() == 27,
        "M_BAD_STATE"@.len() == 11,
        "M_GUEST_ACCESS_FORBIDDEN"@.len() == 24,
        "M_CAPTCHA_NEEDED"@.len() == 16,
        "M_CAPTCHA_INVALID"@.len() == 17,
        "M_MISSING_PARAM"@.len() == 15,
        "M_INVALID_PARAM"@.len() == 15,
        "M_TOO_LARGE"@.len() == 11,
        "M_EXCLUSIVE"@.len() == 11,
        "M_RESOURCE_LIMIT_EXCEEDED"@.len() == 25,
        "M_CANNOT_LEAVE_SERVER_NOTICE_ROOM"@.len() == 33,
        "M_WEAK_PASSWORD"@.len() == 15,
        "M_UNABLE_TO_AUTHORIZE_JOIN"@.len() == 26,
        "M_UNABLE_TO_GRANT_JOIN"@.len() == 22,
        "M_BAD_ALIAS"@.len() == 11,
        "M_DUPLICATE_ANNOTATION"@.len() == 22,
        "M_NOT_YET_UPLOADED"@.len() == 18,
        "M_CANNOT_OVERWRITE_MEDIA"@.len() == 24,
        "M_URL_NOT_SET"@.len() == 13,
        "M_BAD_STATUS"@.len() == 12,
        "M_CONNECTION_FAILED"@.len() == 19,
        "M_CONNECTION_TIMEOUT"@.len() == 20,
        "M_WRONG_ROOM_KEYS_VERSION"@.len() == 25,
        "FI.MAU.MSC2246_CANNOT_OVERWRITE_MEDIA"@.len() == 37,
        "FI.MAU.MSC2246_NOT_YET_UPLOADED"@.len() == 31,
{
    reveal_strlit("M_FORBIDDEN");
    reveal_strlit("M_UNKNOWN_TOKEN");
    reveal_strlit("M_MISSING_TOKEN");
    reveal_strlit("M_BAD_JSON");
    reveal_strlit("M_NOT_JSON");
    reveal_strlit("M_NOT_FOUND");
    reveal_strlit("M_LIMIT_EXCEEDED");
    reveal_strlit("M_UNKNOWN");
    reveal_strlit("M_UNRECOGNIZED");
    reveal_strlit("M_UNAUTHORIZED");
    reveal_strlit("M_USER_DEACTIVATED");
    reveal_strlit("M_USER_IN_USE");
    reveal_strlit("M_INVALID_USERNAME");
    reveal_strlit("M_ROOM_IN_USE");
    reveal_strlit("M_INVALID_ROOM_STATE");
    reveal_strlit("M_THREEPID_IN_USE");
    reveal_strlit("M_THREEPID_NOT_FOUND");
    reveal_strlit("M_THREEPID_AUTH_FAILED");
    reveal_strlit("M_THREEPID_DENIED");
    reveal_strlit("M_SERVER_NOT_TRUSTED");
    reveal_strlit("M_UNSUPPORTED_ROOM_VERSION");
    reveal_strlit("M_INCOMPATIBLE_ROOM_VERSION");
    reveal_strlit("M_BAD_STATE");
    reveal_strlit("M_GUEST_ACCESS_FORBIDDEN");
    reveal_strlit("M_CAPTCHA_NEEDED");
    reveal_strlit("M_CAPTCHA_INVALID");
    reveal_strlit("M_MISSING_PARAM");
    reveal_strlit("M_INVALID_PARAM");
    reveal_strlit("M_TOO_LARGE");
    reveal_strlit("M_EXCLUSIVE");
    reveal_strlit("M_RESOURCE_LIMIT_EXCEEDED");
    reveal_strlit("M_CANNOT_LEAVE_SERVER_NOTICE_ROOM");
    reveal_strlit("M_WEAK_PASSWORD");
    reveal_strlit("M_UNABLE_TO_AUTHORIZE_JOIN");
    reveal_strlit("M_UNABLE_TO_GRANT_JOIN");
    reveal_strlit("M_BAD_ALIAS");
    reveal_strlit("M_DUPLICATE_ANNOTATION");
    reveal_strlit("M_NOT_YET_UPLOADED");
    reveal_strlit("M_CANNOT_OVERWRITE_MEDIA");
    reveal_strlit("M_URL_NOT_SET");
    reveal_strlit("M_BAD_STATUS");
    reveal_strlit("M_CONNECTION_FAILED");
    reveal_strlit("M_CONNECTION_TIMEOUT");
    reveal_strlit("M_WRONG_ROOM_KEYS_VERSION");
    reveal_strlit("FI.MAU.MSC2246_NOT_YET_UPLOADED");
    reveal_strlit("FI.MAU.MSC2246_CANNOT_OVERWRITE_MEDIA");
}

/// Every listed error code reads back as itself from its own text; the one
/// exception is `UnableToAuthorizeJoin`, which is sent with the spelling
/// `M_UNABLE_TO_AUTHORISE_JOIN` but read only as `M_UNABLE_TO_AUTHORIZE_JOIN`.
pub proof fn lemma_errcode_round_trip(k: ErrorKindView)
    requires
        !(k is _Custom),
        !(k is UnableToAuthorizeJoin),
    ensures
        known_errcode(errcode_str(k)) == errcode_of(k),
{
    // A code differs by its length from every code tried before it, except
    // those of its own length, from which one character sets it apart.
    lemma_errcode_lengths();
    match k {
        ErrorKindView::Forbidden => {
            assert(known_errcode("M_FORBIDDEN"@) == Some(ErrCode::Forbidden));
        },
        ErrorKindView::UnknownToken { .. } => {
            assert(known_errcode("M_UNKNOWN_TOKEN"@) == Some(ErrCode::UnknownToken));
        },
        ErrorKindView::MissingToken => {
            reveal_strlit("M_MISSING_TOKEN");
            reveal_strlit("M_UNKNOWN_TOKEN");
            assert("M_MISSING_TOKEN"@[2] != "M_UNKNOWN_TOKEN"@[2]);
            assert(known_errcode("M_MISSING_TOKEN"@) == Some(ErrCode::MissingToken));
        },
        ErrorKindView::BadJson => {
            assert(known_errcode("M_BAD_JSON"@) == Some(ErrCode::BadJson));
        },
        ErrorKindView::NotJson => {
            reveal_strlit("M_NOT_JSON");
            reveal_strlit("M_BAD_JSON");
            assert("M_NOT_JSON"@[2] != "M_BAD_JSON"@[2]);
            assert(known_errcode("M_NOT_JSON"@) == Some(ErrCode::NotJson));
        },
        ErrorKindView::NotFound => {
            reveal_strlit("M_NOT_FOUND");
            reveal_strlit("M_FORBIDDEN");
            assert("M_NOT_FOUND"@[2] != "M_FORBIDDEN"@[2]);
            assert(known_errcode("M_NOT_FOUND"@) == Some(ErrCode::NotFound));
        },
        ErrorKindView::LimitExceeded { .. } => {
            assert(known_errcode("M_LIMIT_EXCEEDED"@) == Some(ErrCode::LimitExceeded));
        },
        ErrorKindView::Unknown => {
            assert(known_errcode("M_UNKNOWN"@) == Some(ErrCode::Unknown));
        },
        ErrorKindView::Unrecognized => {
            assert(known_errcode("M_UNRECOGNIZED"@) == Some(ErrCode::Unrecognized));
        },
        ErrorKindView::Unauthorized => {
            reveal_strlit("M_UNAUTHORIZED");
            reveal_strlit("M_UNRECOGNIZED");
            assert("M_UNAUTHORIZED"@[4] != "M_UNRECOGNIZED"@[4]);
            assert(known_errcode("M_UNAUTHORIZED"@) == Some(ErrCode::Unauthorized));
        },
        ErrorKindView::UserDeactivated => {
            assert(known_errcode("M_USER_DEACTIVATED"@) == Some(ErrCode::UserDeactivated));
        },
        ErrorKindView::UserInUse => {
            assert(known_errcode("M_USER_IN_USE"@) == Some(ErrCode::UserInUse));
        },
        ErrorKindView::InvalidUsername => {
            reveal_strlit("M_INVALID_USERNAME");
            reveal_strlit("M_USER_DEACTIVATED");
            assert("M_INVALID_USERNAME"@[2] != "M_USER_DEACTIVATED"@[2]);
            assert(known_errcode("M_INVALID_USERNAME"@) == Some(ErrCode::InvalidUsername));
        },
        ErrorKindView::RoomInUse => {
            reveal_strlit("M_ROOM_IN_USE");
            reveal_strlit("M_USER_IN_USE");
            assert("M_ROOM_IN_USE"@[2] != "M_USER_IN_USE"@[2]);
            assert(known_errcode("M_ROOM_IN_USE"@) == Some(ErrCode::RoomInUse));
        },
        ErrorKindView::InvalidRoomState => {
            assert(known_errcode("M_INVALID_ROOM_STATE"@) == Some(ErrCode::InvalidRoomState));
        },
        ErrorKindView::ThreepidInUse => {
            assert(known_errcode("M_THREEPID_IN_USE"@) == Some(ErrCode::ThreepidInUse));
        },
        ErrorKindView::ThreepidNotFound => {
            reveal_strlit("M_THREEPID_NOT_FOUND");
            reveal_strlit("M_INVALID_ROOM_STATE");
            assert("M_THREEPID_NOT_FOUND"@[2] != "M_INVALID_ROOM_STATE"@[2]);
            assert(known_errcode("M_THREEPID_NOT_FOUND"@) == Some(ErrCode::ThreepidNotFound));
        },
        ErrorKindView::ThreepidAuthFailed => {
            assert(known_errcode("M_THREEPID_AUTH_FAILED"@) == Some(ErrCode::ThreepidAuthFailed));
        },
        ErrorKindView::ThreepidDenied => {
            reveal_strlit("M_THREEPID_DENIED");
            reveal_strlit("M_THREEPID_IN_USE");
            assert("M_THREEPID_DENIED"@[11] != "M_THREEPID_IN_USE"@[11]);
            assert(known_errcode("M_THREEPID_DENIED"@) == Some(ErrCode::ThreepidDenied));
        },
        ErrorKindView::ServerNotTrusted => {
            reveal_strlit("M_SERVER_NOT_TRUSTED");
            reveal_strlit("M_INVALID_ROOM_STATE");
            reveal_strlit("M_THREEPID_NOT_FOUND");
            assert("M_SERVER_NOT_TRUSTED"@[2] != "M_INVALID_ROOM_STATE"@[2]);
            assert("M_SERVER_NOT_TRUSTED"@[2] != "M_THREEPID_NOT_FOUND"@[2]);
            assert(known_errcode("M_SERVER_NOT_TRUSTED"@) == Some(ErrCode::ServerNotTrusted));
        },
        ErrorKindView::UnsupportedRoomVersion => {
            assert(known_errcode("M_UNSUPPORTED_ROOM_VERSION"@) == Some(ErrCode::UnsupportedRoomVersion));
        },
        ErrorKindView::IncompatibleRoomVersion { .. } => {
            assert(known_errcode("M_INCOMPATIBLE_ROOM_VERSION"@) == Some(ErrCode::IncompatibleRoomVersion));
        },
        ErrorKindView::BadState => {
            reveal_strlit("M_BAD_STATE");
            reveal_strlit("M_FORBIDDEN");
            reveal_strlit("M_NOT_FOUND");
            assert("M_BAD_STATE"@[2] != "M_FORBIDDEN"@[2]);
            assert("M_BAD_STATE"@[2] != "M_NOT_FOUND"@[2]);
            assert(known_errcode("M_BAD_STATE"@) == Some(ErrCode::BadState));
        },
        ErrorKindView::GuestAccessForbidden => {
            assert(known_errcode("M_GUEST_ACCESS_FORBIDDEN"@) == Some(ErrCode::GuestAccessForbidden));
        },
        ErrorKindView::CaptchaNeeded => {
            reveal_strlit("M_CAPTCHA_NEEDED");
            reveal_strlit("M_LIMIT_EXCEEDED");
            assert("M_CAPTCHA_NEEDED"@[2] != "M_LIMIT_EXCEEDED"@[2]);
            assert(known_errcode("M_CAPTCHA_NEEDED"@) == Some(ErrCode::CaptchaNeeded));
        },
        ErrorKindView::CaptchaInvalid => {
            reveal_strlit("M_CAPTCHA_INVALID");
            reveal_strlit("M_THREEPID_IN_USE");
            reveal_strlit("M_THREEPID_DENIED");
            assert("M_CAPTCHA_INVALID"@[2] != "M_THREEPID_IN_USE"@[2]);
            assert("M_CAPTCHA_INVALID"@[2] != "M_THREEPID_DENIED"@[2]);
            assert(known_errcode("M_CAPTCHA_INVALID"@) == Some(ErrCode::CaptchaInvalid));
        },
        ErrorKindView::MissingParam => {
            reveal_strlit("M_MISSING_PARAM");
            reveal_strlit("M_UNKNOWN_TOKEN");
            reveal_strlit("M_MISSING_TOKEN");
            assert("M_MISSING_PARAM"@[2] != "M_UNKNOWN_TOKEN"@[2]);
            assert("M_MISSING_PARAM"@[10] != "M_MISSING_TOKEN"@[10]);
            assert(known_errcode("M_MISSING_PARAM"@) == Some(ErrCode::MissingParam));
        },
        ErrorKindView::InvalidParam => {
            reveal_strlit("M_INVALID_PARAM");
            reveal_strlit("M_UNKNOWN_TOKEN");
            reveal_strlit("M_MISSING_TOKEN");
            reveal_strlit("M_MISSING_PARAM");
            assert("M_INVALID_PARAM"@[2] != "M_UNKNOWN_TOKEN"@[2]);
            assert("M_INVALID_PARAM"@[2] != "M_MISSING_TOKEN"@[2]);
            assert("M_INVALID_PARAM"@[2] != "M_MISSING_PARAM"@[2]);
            assert(known_errcode("M_INVALID_PARAM"@) == Some(ErrCode::InvalidParam));
        },
        ErrorKindView::TooLarge => {
            reveal_strlit("M_TOO_LARGE");
            reveal_strlit("M_FORBIDDEN");
            reveal_strlit("M_NOT_FOUND");
            reveal_strlit("M_BAD_STATE");
            assert("M_TOO_LARGE"@[2] != "M_FORBIDDEN"@[2]);
            assert("M_TOO_LARGE"@[2] != "M_NOT_FOUND"@[2]);
            assert("M_TOO_LARGE"@[2] != "M_BAD_STATE"@[2]);
            assert(known_errcode("M_TOO_LARGE"@) == Some(ErrCode::TooLarge));
        },
        ErrorKindView::Exclusive => {
            reveal_strlit("M_EXCLUSIVE");
            reveal_strlit("M_FORBIDDEN");
            reveal_strlit("M_NOT_FOUND");
            reveal_strlit("M_BAD_STATE");
            reveal_strlit("M_TOO_LARGE");
            assert("M_EXCLUSIVE"@[2] != "M_FORBIDDEN"@[2]);
            assert("M_EXCLUSIVE"@[2] != "M_NOT_FOUND"@[2]);
            assert("M_EXCLUSIVE"@[2] != "M_BAD_STATE"@[2]);
            assert("M_EXCLUSIVE"@[2] != "M_TOO_LARGE"@[2]);
            assert(known_errcode("M_EXCLUSIVE"@) == Some(ErrCode::Exclusive));
        },
        ErrorKindView::ResourceLimitExceeded { .. } => {
            assert(known_errcode("M_RESOURCE_LIMIT_EXCEEDED"@) == Some(ErrCode::ResourceLimitExceeded));
        },
        ErrorKindView::CannotLeaveServerNoticeRoom => {
            assert(known_errcode("M_CANNOT_LEAVE_SERVER_NOTICE_ROOM"@) == Some(ErrCode::CannotLeaveServerNoticeRoom));
        },
        ErrorKindView::WeakPassword => {
            reveal_strlit("M_WEAK_PASSWORD");
            reveal_strlit("M_UNKNOWN_TOKEN");
            reveal_strlit("M_MISSING_TOKEN");
            reveal_strlit("M_MISSING_PARAM");
            reveal_strlit("M_INVALID_PARAM");
            assert("M_WEAK_PASSWORD"@[2] != "M_UNKNOWN_TOKEN"@[2]);
            assert("M_WEAK_PASSWORD"@[2] != "M_MISSING_TOKEN"@[2]);
            assert("M_WEAK_PASSWORD"@[2] != "M_MISSING_PARAM"@[2]);
            assert("M_WEAK_PASSWORD"@[2] != "M_INVALID_PARAM"@[2]);
            assert(known_errcode("M_WEAK_PASSWORD"@) == Some(ErrCode::WeakPassword));
        },
        ErrorKindView::UnableToGrantJoin => {
            reveal_strlit("M_UNABLE_TO_GRANT_JOIN");
            reveal_strlit("M_THREEPID_AUTH_FAILED");
            assert("M_UNABLE_TO_GRANT_JOIN"@[2] != "M_THREEPID_AUTH_FAILED"@[2]);
            assert(known_errcode("M_UNABLE_TO_GRANT_JOIN"@) == Some(ErrCode::UnableToGrantJoin));
        },
        ErrorKindView::BadAlias => {
            reveal_strlit("M_BAD_ALIAS");
            reveal_strlit("M_FORBIDDEN");
            reveal_strlit("M_NOT_FOUND");
            reveal_strlit("M_BAD_STATE");
            reveal_strlit("M_TOO_LARGE");
            reveal_strlit("M_EXCLUSIVE");
            assert("M_BAD_ALIAS"@[2] != "M_FORBIDDEN"@[2]);
            assert("M_BAD_ALIAS"@[2] != "M_NOT_FOUND"@[2]);
            assert("M_BAD_ALIAS"@[6] != "M_BAD_STATE"@[6]);
            assert("M_BAD_ALIAS"@[2] != "M_TOO_LARGE"@[2]);
            assert("M_BAD_ALIAS"@[2] != "M_EXCLUSIVE"@[2]);
            assert(known_errcode("M_BAD_ALIAS"@) == Some(ErrCode::BadAlias));
        },
        ErrorKindView::DuplicateAnnotation => {
            reveal_strlit("M_DUPLICATE_ANNOTATION");
            reveal_strlit("M_THREEPID_AUTH_FAILED");
            reveal_strlit("M_UNABLE_TO_GRANT_JOIN");
            assert("M_DUPLICATE_ANNOTATION"@[2] != "M_THREEPID_AUTH_FAILED"@[2]);
            assert("M_DUPLICATE_ANNOTATION"@[2] != "M_UNABLE_TO_GRANT_JOIN"@[2]);
            assert(known_errcode("M_DUPLICATE_ANNOTATION"@) == Some(ErrCode::DuplicateAnnotation));
        },
        ErrorKindView::NotYetUploaded => {
            reveal_strlit("M_NOT_YET_UPLOADED");
            reveal_strlit("M_USER_DEACTIVATED");
            reveal_strlit("M_INVALID_USERNAME");
            assert("M_NOT_YET_UPLOADED"@[2] != "M_USER_DEACTIVATED"@[2]);
            assert("M_NOT_YET_UPLOADED"@[2] != "M_INVALID_USERNAME"@[2]);
            assert(known_errcode("M_NOT_YET_UPLOADED"@) == Some(ErrCode::NotYetUploaded));
        },
        ErrorKindView::CannotOverwriteMedia => {
            reveal_strlit("M_CANNOT_OVERWRITE_MEDIA");
            reveal_strlit("M_GUEST_ACCESS_FORBIDDEN");
            assert("M_CANNOT_OVERWRITE_MEDIA"@[2] != "M_GUEST_ACCESS_FORBIDDEN"@[2]);
            assert(known_errcode("M_CANNOT_OVERWRITE_MEDIA"@) == Some(ErrCode::CannotOverwriteMedia));
        },
        ErrorKindView::UrlNotSet => {
            reveal_strlit("M_URL_NOT_SET");
            reveal_strlit("M_USER_IN_USE");
            reveal_strlit("M_ROOM_IN_USE");
            assert("M_URL_NOT_SET"@[3] != "M_USER_IN_USE"@[3]);
            assert("M_URL_NOT_SET"@[2] != "M_ROOM_IN_USE"@[2]);
            assert(known_errcode("M_URL_NOT_SET"@) == Some(ErrCode::UrlNotSet));
        },
        ErrorKindView::BadStatus { .. } => {
            assert(known_errcode("M_BAD_STATUS"@) == Some(ErrCode::BadStatus));
        },
        ErrorKindView::ConnectionFailed => {
            assert(known_errcode("M_CONNECTION_FAILED"@) == Some(ErrCode::ConnectionFailed));
        },
        ErrorKindView::ConnectionTimeout => {
            reveal_strlit("M_CONNECTION_TIMEOUT");
            reveal_strlit("M_INVALID_ROOM_STATE");
            reveal_strlit("M_THREEPID_NOT_FOUND");
            reveal_strlit("M_SERVER_NOT_TRUSTED");
            assert("M_CONNECTION_TIMEOUT"@[2] != "M_INVALID_ROOM_STATE"@[2]);
            assert("M_CONNECTION_TIMEOUT"@[2] != "M_THREEPID_NOT_FOUND"@[2]);
            assert("M_CONNECTION_TIMEOUT"@[2] != "M_SERVER_NOT_TRUSTED"@[2]);
            assert(known_errcode("M_CONNECTION_TIMEOUT"@) == Some(ErrCode::ConnectionTimeout));
        },
        ErrorKindView::WrongRoomKeysVersion { .. } => {
            reveal_strlit("M_WRONG_ROOM_KEYS_VERSION");
            reveal_strlit("M_RESOURCE_LIMIT_EXCEEDED");
            assert("M_WRONG_ROOM_KEYS_VERSION"@[2] != "M_RESOURCE_LIMIT_EXCEEDED"@[2]);
            assert(known_errcode("M_WRONG_ROOM_KEYS_VERSION"@) == Some(ErrCode::WrongRoomKeysVersion));
        },
        _ => {},
    }
}

/// Reading extra fields whose keys follow the extra fields already read, in
/// order and none of them a known field, appends them.
proof fn lemma_fold_extra(st: VisitModel, es: Seq<(Seq<char>, JsonView)>)
    requires
        sorted_keys(st.extra + es),
        forall|i: int| 0 <= i < es.len() ==> known_field(#[trigger] es[i].0) is None,
    ensures
        visit_fold(st, es) == Ok::<VisitModel, DeErrorView>(VisitModel { extra: st.extra + es, ..st }),
    decreases es.len(),
{
    let all = st.extra + es;
    if es.len() == 0 {
        assert(st.extra + es =~= st.extra);
    } else {
        let (k, v) = es[0];
        let n = st.extra.len() as int;
        assert(all[n] == es[0]);
        assert(known_field(es[0].0) is None);
        assert forall|j: int| 0 <= j < st.extra.len() implies str_lt(#[trigger] st.extra[j].0, k) by {
            assert(all[j] == st.extra[j]);
        }
        if has_key(st.extra, k) {
            let j = choose|j: int| 0 <= j < st.extra.len() && (#[trigger] st.extra[j]).0 == k;
            assert(str_lt(st.extra[j].0, k));
            lemma_str_lt_total(k, k);
        }
        lemma_insert_pos_after_all(st.extra, k);
        let next = VisitModel { extra: sorted_insert(st.extra, k, v), ..st };
        assert(sorted_insert(st.extra, k, v) =~= st.extra.push(es[0]));
        assert(next.extra + es.drop_first() =~= all);
        assert forall|i: int| 0 <= i < es.drop_first().len() implies known_field(
            #[trigger] es.drop_first()[i].0,
        ) is None by {
            assert(es.drop_first()[i] == es[i + 1]);
        }
        lemma_fold_extra(next, es.drop_first());
    }
}

/// Writing a kind and reading the fields back gives the same kind, for every
/// kind whose fields are all written: not `WrongRoomKeysVersion` (its field
/// is not written), not `BadStatus` with a status or a body (neither is
/// written), not `UnableToAuthorizeJoin` (its code is sent with another
/// spelling than the one read), a retry delay only in whole milliseconds, and
/// for other codes a code outside the list and extra fields that are not
/// known fields, in key order. A room version must be one that reading
/// accepts.
pub proof fn lemma_serialize_round_trip(k: ErrorKindView)
    requires
        !(k is UnableToAuthorizeJoin),
        !(k is WrongRoomKeysVersion),
        k matches ErrorKindView::BadStatus { status, body } ==> status is None && body is None,
        k matches ErrorKindView::LimitExceeded { retry_after_ms: Some(d) } ==> d.millis() <= u64::MAX
            && d == Duration::spec_from_millis(d.millis() as u64),
        k matches ErrorKindView::_Custom { errcode, extra } ==> known_errcode(errcode) is None
            && sorted_keys(extra) && forall|i: int|
            0 <= i < extra.len() ==> known_field(#[trigger] extra[i].0) is None,
    ensures
        (k matches ErrorKindView::IncompatibleRoomVersion { room_version } ==> room_version_accepted(
            room_version,
        )) ==> serialize_spec(k) == Some(serialize_spec(k)->0) && visit_entries(
            serialize_spec(k)->0,
        ) == Ok::<ErrorKindView, DeErrorView>(k),
{
    reveal_strlit("errcode");
    reveal_strlit("soft_logout");
    reveal_strlit("retry_after_ms");
    reveal_strlit("room_version");
    reveal_strlit("admin_contact");
    assert("soft_logout"@.len() != "errcode"@.len());
    assert("retry_after_ms"@.len() != "errcode"@.len());
    assert("retry_after_ms"@.len() != "soft_logout"@.len());
    assert("room_version"@.len() != "errcode"@.len());
    assert("room_version"@.len() != "soft_logout"@.len());
    assert("room_version"@.len() != "retry_after_ms"@.len());
    assert("admin_contact"@.len() != "errcode"@.len());
    assert("admin_contact"@.len() != "soft_logout"@.len());
    assert("admin_contact"@.len() != "retry_after_ms"@.len());
    assert("admin_contact"@.len() != "room_version"@.len());
    assert(known_field("soft_logout"@) == Some(FieldName::SoftLogout));
    assert(known_field("retry_after_ms"@) == Some(FieldName::RetryAfterMs));
    assert(known_field("room_version"@) == Some(FieldName::RoomVersion));
    assert(known_field("admin_contact"@) == Some(FieldName::AdminContact));
    if k is _Custom {
        let (t, extra) = match k {
            ErrorKindView::_Custom { errcode, extra } => (errcode, extra),
            _ => (Seq::empty(), Seq::empty()),
        };
        let es = serialize_spec(k)->0;
        let st1 = VisitModel { errcode: Some(t), ..initial_visit() };
        assert(es.drop_first() =~= extra);
        assert(initial_visit().extra + extra =~= extra);
        lemma_fold_extra(st1, extra);
        assert(visit_step(initial_visit(), es[0].0, es[0].1) == Ok::<VisitModel, DeErrorView>(st1));
        assert(visit_fold(initial_visit(), es) == visit_fold(st1, extra));
    } else {
        lemma_errcode_round_trip(k);
        reveal_with_fuel(visit_fold, 3);
    }
}

/// The fields a standard error body is sent as: the kind's fields, then
/// the message under `error`.
pub open spec fn standard_body_fields(k: ErrorKindView, message: Seq<char>) -> Seq<
    (Seq<char>, JsonView),
> {
    serialize_spec(k)->0.push(("error"@, JsonView::String(message)))
}

/// An error with a standard body, sent as a response and read back, is the
/// same error. The response keeps the status and sends
/// [`standard_body_fields`]; reading it back takes the message from
/// `error`, the one field of that name, and the kind from the other fields,
/// which read back as the kind. This holds for the kinds that
/// [`lemma_serialize_round_trip`] covers, when no extra field of another
/// code is named `error`.
pub proof fn lemma_response_round_trip(k: ErrorKindView, message: Seq<char>)
    requires
        !(k is UnableToAuthorizeJoin),
        !(k is WrongRoomKeysVersion),
        k matches ErrorKindView::BadStatus { status, body } ==> status is None && body is None,
        k matches ErrorKindView::LimitExceeded { retry_after_ms: Some(d) } ==> d.millis() <= u64::MAX
            && d == Duration::spec_from_millis(d.millis() as u64),
        k matches ErrorKindView::_Custom { errcode, extra } ==> known_errcode(errcode) is None
            && sorted_keys(extra) && !has_key(extra, "error"@) && forall|i: int|
            0 <= i < extra.len() ==> known_field(#[trigger] extra[i].0) is None,
        k matches ErrorKindView::IncompatibleRoomVersion { room_version } ==> room_version_accepted(
            room_version,
        ),
    ensures
        serialize_spec(k) is Some,
        standard_body_fields(k, message).last() == ("error"@, JsonView::String(message)),
        forall|i: int|
            0 <= i < standard_body_fields(k, message).len() - 1 ==> (#[trigger] standard_body_fields(
                k,
                message,
            )[i]).0 != "error"@,
        visit_entries(standard_body_fields(k, message).drop_last()) == Ok::<
            ErrorKindView,
            DeErrorView,
        >(k),
{
    lemma_serialize_round_trip(k);
    let fields = serialize_spec(k)->0;
    let all = standard_body_fields(k, message);
    assert(all.drop_last() =~= fields);
    reveal_strlit("error");
    reveal_strlit("errcode");
    reveal_strlit("soft_logout");
    reveal_strlit("retry_after_ms");
    reveal_strlit("room_version");
    reveal_strlit("admin_contact");
    assert forall|i: int| 0 <= i < all.len() - 1 implies (#[trigger] all[i]).0 != "error"@ by {
        assert(all[i] == fields[i]);
        if let ErrorKindView::_Custom { errcode, extra } = k {
            if i > 0 {
                assert(fields[i] == extra[i - 1]);
            } else {
                assert(fields[0].0 == "errcode"@);
            }
        } else {
            assert(fields[i].0 == "errcode"@ || fields[i].0 == "soft_logout"@ || fields[i].0
                == "retry_after_ms"@ || fields[i].0 == "room_version"@ || fields[i].0
                == "admin_contact"@);
            assert("error"@.len() == 5);
        }
    }
}

/// Every listed code is written with the `M_` prefix, and no kind but
/// `UnableToAuthorizeJoin` is written with its spelling.
proof fn lemma_errcode_shape(k: ErrorKindView)
    requires
        !(k is _Custom),
    ensures
        errcode_str(k).len() >= 2 && errcode_str(k)[0] == 'M' && errcode_str(k)[1] == '_',
        !(k is UnableToAuthorizeJoin) ==> errcode_str(k) != "M_UNABLE_TO_AUTHORISE_JOIN"@,
{
    reveal_strlit("M_UNABLE_TO_AUTHORISE_JOIN");
    match k {
        ErrorKindView::Forbidden => {
            reveal_strlit("M_FORBIDDEN");
            assert("M_FORBIDDEN"@[0] == 'M' && "M_FORBIDDEN"@[1] == '_');
        },
        ErrorKindView::UnknownToken { .. } => {
            reveal_strlit("M_UNKNOWN_TOKEN");
            assert("M_UNKNOWN_TOKEN"@[0] == 'M' && "M_UNKNOWN_TOKEN"@[1] == '_');
        },
        ErrorKindView::MissingToken => {
            reveal_strlit("M_MISSING_TOKEN");
            assert("M_MISSING_TOKEN"@[0] == 'M' && "M_MISSING_TOKEN"@[1] == '_');
        },
        ErrorKindView::BadJson => {
            reveal_strlit("M_BAD_JSON");
            assert("M_BAD_JSON"@[0] == 'M' && "M_BAD_JSON"@[1] == '_');
        },
        ErrorKindView::NotJson => {
            reveal_strlit("M_NOT_JSON");
            assert("M_NOT_JSON"@[0] == 'M' && "M_NOT_JSON"@[1] == '_');
        },
        ErrorKindView::NotFound => {
            reveal_strlit("M_NOT_FOUND");
            assert("M_NOT_FOUND"@[0] == 'M' && "M_NOT_FOUND"@[1] == '_');
        },
        ErrorKindView::LimitExceeded { .. } => {
            reveal_strlit("M_LIMIT_EXCEEDED");
            assert("M_LIMIT_EXCEEDED"@[0] == 'M' && "M_LIMIT_EXCEEDED"@[1] == '_');
        },
        ErrorKindView::Unknown => {
            reveal_strlit("M_UNKNOWN");
            assert("M_UNKNOWN"@[0] == 'M' && "M_UNKNOWN"@[1] == '_');
        },
        ErrorKindView::Unrecognized => {
            reveal_strlit("M_UNRECOGNIZED");
            assert("M_UNRECOGNIZED"@[0] == 'M' && "M_UNRECOGNIZED"@[1] == '_');
        },
        ErrorKindView::Unauthorized => {
            reveal_strlit("M_UNAUTHORIZED");
            assert("M_UNAUTHORIZED"@[0] == 'M' && "M_UNAUTHORIZED"@[1] == '_');
        },
        ErrorKindView::UserDeactivated => {
            reveal_strlit("M_USER_DEACTIVATED");
            assert("M_USER_DEACTIVATED"@[0] == 'M' && "M_USER_DEACTIVATED"@[1] == '_');
        },
        ErrorKindView::UserInUse => {
            reveal_strlit("M_USER_IN_USE");
            assert("M_USER_IN_USE"@[0] == 'M' && "M_USER_IN_USE"@[1] == '_');
        },
        ErrorKindView::InvalidUsername => {
            reveal_strlit("M_INVALID_USERNAME");
            assert("M_INVALID_USERNAME"@[0] == 'M' && "M_INVALID_USERNAME"@[1] == '_');
        },
        ErrorKindView::RoomInUse => {
            reveal_strlit("M_ROOM_IN_USE");
            assert("M_ROOM_IN_USE"@[0] == 'M' && "M_ROOM_IN_USE"@[1] == '_');
        },
        ErrorKindView::InvalidRoomState => {
            reveal_strlit("M_INVALID_ROOM_STATE");
            assert("M_INVALID_ROOM_STATE"@[0] == 'M' && "M_INVALID_ROOM_STATE"@[1] == '_');
        },
        ErrorKindView::ThreepidInUse => {
            reveal_strlit("M_THREEPID_IN_USE");
            assert("M_THREEPID_IN_USE"@[0] == 'M' && "M_THREEPID_IN_USE"@[1] == '_');
        },
        ErrorKindView::ThreepidNotFound => {
            reveal_strlit("M_THREEPID_NOT_FOUND");
            assert("M_THREEPID_NOT_FOUND"@[0] == 'M' && "M_THREEPID_NOT_FOUND"@[1] == '_');
        },
        ErrorKindView::ThreepidAuthFailed => {
            reveal_strlit("M_THREEPID_AUTH_FAILED");
            assert("M_THREEPID_AUTH_FAILED"@[0] == 'M' && "M_THREEPID_AUTH_FAILED"@[1] == '_');
        },
        ErrorKindView::ThreepidDenied => {
            reveal_strlit("M_THREEPID_DENIED");
            assert("M_THREEPID_DENIED"@[0] == 'M' && "M_THREEPID_DENIED"@[1] == '_');
        },
        ErrorKindView::ServerNotTrusted => {
            reveal_strlit("M_SERVER_NOT_TRUSTED");
            assert("M_SERVER_NOT_TRUSTED"@[0] == 'M' && "M_SERVER_NOT_TRUSTED"@[1] == '_');
        },
        ErrorKindView::UnsupportedRoomVersion => {
            reveal_strlit("M_UNSUPPORTED_ROOM_VERSION");
            assert("M_UNSUPPORTED_ROOM_VERSION"@[0] == 'M' && "M_UNSUPPORTED_ROOM_VERSION"@[1] == '_');
            assert("M_UNSUPPORTED_ROOM_VERSION"@[4] != "M_UNABLE_TO_AUTHORISE_JOIN"@[4]);
        },
        ErrorKindView::IncompatibleRoomVersion { .. } => {
            reveal_strlit("M_INCOMPATIBLE_ROOM_VERSION");
            assert("M_INCOMPATIBLE_ROOM_VERSION"@[0] == 'M' && "M_INCOMPATIBLE_ROOM_VERSION"@[1] == '_');
        },
        ErrorKindView::BadState => {
            reveal_strlit("M_BAD_STATE");
            assert("M_BAD_STATE"@[0] == 'M' && "M_BAD_STATE"@[1] == '_');
        },
        ErrorKindView::GuestAccessForbidden => {
            reveal_strlit("M_GUEST_ACCESS_FORBIDDEN");
            assert("M_GUEST_ACCESS_FORBIDDEN"@[0] == 'M' && "M_GUEST_ACCESS_FORBIDDEN"@[1] == '_');
        },
        ErrorKindView::CaptchaNeeded => {
            reveal_strlit("M_CAPTCHA_NEEDED");
            assert("M_CAPTCHA_NEEDED"@[0] == 'M' && "M_CAPTCHA_NEEDED"@[1] == '_');
        },
        ErrorKindView::CaptchaInvalid => {
            reveal_strlit("M_CAPTCHA_INVALID");
            assert("M_CAPTCHA_INVALID"@[0] == 'M' && "M_CAPTCHA_INVALID"@[1] == '_');
        },
        ErrorKindView::MissingParam => {
            reveal_strlit("M_MISSING_PARAM");
            assert("M_MISSING_PARAM"@[0] == 'M' && "M_MISSING_PARAM"@[1] == '_');
        },
        ErrorKindView::InvalidParam => {
            reveal_strlit("M_INVALID_PARAM");
            assert("M_INVALID_PARAM"@[0] == 'M' && "M_INVALID_PARAM"@[1] == '_');
        },
        ErrorKindView::TooLarge => {
            reveal_strlit("M_TOO_LARGE");
            assert("M_TOO_LARGE"@[0] == 'M' && "M_TOO_LARGE"@[1] == '_');
        },
        ErrorKindView::Exclusive => {
            reveal_strlit("M_EXCLUSIVE");
            assert("M_EXCLUSIVE"@[0] == 'M' && "M_EXCLUSIVE"@[1] == '_');
        },
        ErrorKindView::ResourceLimitExceeded { .. } => {
            reveal_strlit("M_RESOURCE_LIMIT_EXCEEDED");
            assert("M_RESOURCE_LIMIT_EXCEEDED"@[0] == 'M' && "M_RESOURCE_LIMIT_EXCEEDED"@[1] == '_');
        },
        ErrorKindView::CannotLeaveServerNoticeRoom => {
            reveal_strlit("M_CANNOT_LEAVE_SERVER_NOTICE_ROOM");
            assert("M_CANNOT_LEAVE_SERVER_NOTICE_ROOM"@[0] == 'M' && "M_CANNOT_LEAVE_SERVER_NOTICE_ROOM"@[1] == '_');
        },
        ErrorKindView::WeakPassword => {
            reveal_strlit("M_WEAK_PASSWORD");
            assert("M_WEAK_PASSWORD"@[0] == 'M' && "M_WEAK_PASSWORD"@[1] == '_');
        },
        ErrorKindView::UnableToAuthorizeJoin => {
            reveal_strlit("M_UNABLE_TO_AUTHORISE_JOIN");
            assert("M_UNABLE_TO_AUTHORISE_JOIN"@[0] == 'M' && "M_UNABLE_TO_AUTHORISE_JOIN"@[1] == '_');
        },
        ErrorKindView::UnableToGrantJoin => {
            reveal_strlit("M_UNABLE_TO_GRANT_JOIN");
            assert("M_UNABLE_TO_GRANT_JOIN"@[0] == 'M' && "M_UNABLE_TO_GRANT_JOIN"@[1] == '_');
        },
        ErrorKindView::BadAlias => {
            reveal_strlit("M_BAD_ALIAS");
            assert("M_BAD_ALIAS"@[0] == 'M' && "M_BAD_ALIAS"@[1] == '_');
        },
        ErrorKindView::DuplicateAnnotation => {
            reveal_strlit("M_DUPLICATE_ANNOTATION");
            assert("M_DUPLICATE_ANNOTATION"@[0] == 'M' && "M_DUPLICATE_ANNOTATION"@[1] == '_');
        },
        ErrorKindView::NotYetUploaded => {
            reveal_strlit("M_NOT_YET_UPLOADED");
            assert("M_NOT_YET_UPLOADED"@[0] == 'M' && "M_NOT_YET_UPLOADED"@[1] == '_');
        },
        ErrorKindView::CannotOverwriteMedia => {
            reveal_strlit("M_CANNOT_OVERWRITE_MEDIA");
            assert("M_CANNOT_OVERWRITE_MEDIA"@[0] == 'M' && "M_CANNOT_OVERWRITE_MEDIA"@[1] == '_');
        },
        ErrorKindView::UrlNotSet => {
            reveal_strlit("M_URL_NOT_SET");
            assert("M_URL_NOT_SET"@[0] == 'M' && "M_URL_NOT_SET"@[1] == '_');
        },
        ErrorKindView::BadStatus { .. } => {
            reveal_strlit("M_BAD_STATUS");
            assert("M_BAD_STATUS"@[0] == 'M' && "M_BAD_STATUS"@[1] == '_');
        },
        ErrorKindView::ConnectionFailed => {
            reveal_strlit("M_CONNECTION_FAILED");
            assert("M_CONNECTION_FAILED"@[0] == 'M' && "M_CONNECTION_FAILED"@[1] == '_');
        },
        ErrorKindView::ConnectionTimeout => {
            reveal_strlit("M_CONNECTION_TIMEOUT");
            assert("M_CONNECTION_TIMEOUT"@[0] == 'M' && "M_CONNECTION_TIMEOUT"@[1] == '_');
        },
        ErrorKindView::WrongRoomKeysVersion { .. } => {
            reveal_strlit("M_WRONG_ROOM_KEYS_VERSION");
            assert("M_WRONG_ROOM_KEYS_VERSION"@[0] == 'M' && "M_WRONG_ROOM_KEYS_VERSION"@[1] == '_');
        },
        ErrorKindView::_Custom { .. } => {},
    }
}

/// Two kinds of listed codes are written with the same code exactly when
/// they are kinds of the same code, whatever their fields; every listed
/// code starts with `M_`. (A kind of another code is written with the code
/// it was read with: `errcode_str` gives its `errcode`.)
pub proof fn lemma_errcode_distinct(k1: ErrorKindView, k2: ErrorKindView)
    requires
        !(k1 is _Custom),
        !(k2 is _Custom),
    ensures
        errcode_str(k1) == errcode_str(k2) <==> errcode_of(k1) == errcode_of(k2),
        errcode_str(k1).len() >= 2 && errcode_str(k1)[0] == 'M' && errcode_str(k1)[1] == '_',
{
    lemma_errcode_shape(k1);
    lemma_errcode_shape(k2);
    if !(k1 is UnableToAuthorizeJoin) && !(k2 is UnableToAuthorizeJoin) {
        lemma_errcode_round_trip(k1);
        lemma_errcode_round_trip(k2);
    }
    if errcode_of(k1) == errcode_of(k2) {
        lemma_errcode_of_determines_str(k1, k2);
    }
}

/// Kinds of the same listed code are written with the same code.
proof fn lemma_errcode_of_determines_str(k1: ErrorKindView, k2: ErrorKindView)
    requires
        !(k1 is _Custom),
        !(k2 is _Custom),
        errcode_of(k1) == errcode_of(k2),
    ensures
        errcode_str(k1) == errcode_str(k2),
{
}

/// The keys of the entries are pairwise distinct, as in a JSON object.
pub open spec fn distinct_keys(es: Seq<(Seq<char>, JsonView)>) -> bool {
    forall|i: int, j: int| 0 <= i < j < es.len() ==> (#[trigger] es[i]).0 != (#[trigger] es[j]).0
}

/// Some entry names the error code with a value that is not a string.
pub open spec fn bad_errcode(es: Seq<(Seq<char>, JsonView)>) -> bool {
    exists|i: int| 0 <= i < es.len() && (#[trigger] es[i]).0 == "errcode"@ && !(es[i].1 is String)
}

/// What reading the entries `p` has left in `st`: the error code read, the
/// other fields gathered in key order, and the value of each known field
/// that the code read so far lets in.
pub open spec fn visit_inv(st: VisitModel, p: Seq<(Seq<char>, JsonView)>) -> bool {
    &&& st.errcode matches Some(t) ==> p.contains(("errcode"@, JsonView::String(t)))
    &&& st.errcode is None ==> !has_key(p, "errcode"@)
    &&& !bad_errcode(p)
    &&& sorted_keys(st.extra)
    &&& forall|e: (Seq<char>, JsonView)| #[trigger]
        st.extra.contains(e) <==> p.contains(e) && known_field(e.0) is None
    &&& forall|f: FieldName|
        f != FieldName::ErrCode && (#[trigger] slot(st, f)) is Some ==> exists|e: (
            Seq<char>,
            JsonView,
        )| #[trigger] p.contains(e) && known_field(e.0) == Some(f) && e.1 == slot(st, f)->0
    &&& forall|e: (Seq<char>, JsonView)| #[trigger] p.contains(e) ==> slot_holds(st, e)
}

/// If the entry `e` names a known field that the code read so far lets in,
/// `st` holds its value.
pub open spec fn slot_holds(st: VisitModel, e: (Seq<char>, JsonView)) -> bool {
    match known_field(e.0) {
        Some(f) => f != FieldName::ErrCode && field_admitted(st.errcode, f) ==> slot(st, f) == Some(
            e.1,
        ),
        None => true,
    }
}

/// A key names at most one known field, and a known field has one key.
proof fn lemma_known_field_key(k1: Seq<char>, k2: Seq<char>)
    requires
        known_field(k1) is Some,
        known_field(k1) == known_field(k2),
    ensures
        k1 == k2,
{
}

/// Entries with the same key in a sequence of distinct keys are the same.
proof fn lemma_same_key_same_entry(
    p: Seq<(Seq<char>, JsonView)>,
    e1: (Seq<char>, JsonView),
    e2: (Seq<char>, JsonView),
)
    requires
        distinct_keys(p),
        p.contains(e1),
        p.contains(e2),
        e1.0 == e2.0,
    ensures
        e1 == e2,
{
    let i = choose|i: int| 0 <= i < p.len() && p[i] == e1;
    let j = choose|j: int| 0 <= j < p.len() && p[j] == e2;
    if i < j {
        assert(p[i].0 != p[j].0);
    } else if j < i {
        assert(p[j].0 != p[i].0);
    }
}

/// What inserting an entry in order adds.
proof fn lemma_sorted_insert_contains(
    s: Seq<(Seq<char>, JsonView)>,
    k: Seq<char>,
    v: JsonView,
    e: (Seq<char>, JsonView),
)
    ensures
        sorted_insert(s, k, v).contains(e) <==> s.contains(e) || e == (k, v),
{
    lemma_insert_pos_bounds(s, k);
    let p = insert_pos(s, k);
    let t = sorted_insert(s, k, v);
    assert(t.len() == s.len() + 1);
    if t.contains(e) {
        let j = choose|j: int| 0 <= j < t.len() && t[j] == e;
        if j < p {
            assert(t[j] == s[j]);
        } else if j > p {
            assert(t[j] == s[j - 1]);
        }
    }
    if s.contains(e) {
        let j = choose|j: int| 0 <= j < s.len() && s[j] == e;
        if j < p {
            assert(t[j] == s[j]);
        } else {
            assert(t[j + 1] == s[j]);
        }
    }
    if e == (k, v) {
        assert(t[p] == (k, v));
    }
}

/// An entry read before `e` has another key.
proof fn lemma_prefix_key(
    p: Seq<(Seq<char>, JsonView)>,
    e: (Seq<char>, JsonView),
    x: (Seq<char>, JsonView),
)
    requires
        distinct_keys(p.push(e)),
        p.contains(x),
    ensures
        x.0 != e.0,
        p.push(e).contains(x),
{
    let q = p.push(e);
    let i = choose|i: int| 0 <= i < p.len() && p[i] == x;
    assert(q[i] == x);
    assert(q[p.len() as int] == e);
    assert(q[i].0 != q[p.len() as int].0);
}

/// Reading one more entry, under a key not read yet, keeps [`visit_inv`];
/// it fails only on an error code that is not a string.
proof fn lemma_visit_step_inv(
    st: VisitModel,
    p: Seq<(Seq<char>, JsonView)>,
    e: (Seq<char>, JsonView),
)
    requires
        visit_inv(st, p),
        distinct_keys(p.push(e)),
    ensures
        visit_step(st, e.0, e.1) is Err <==> bad_errcode(p.push(e)),
        visit_step(st, e.0, e.1) matches Err(x) ==> x == DeErrorView::InvalidValue(
            FieldName::ErrCode,
        ),
        visit_step(st, e.0, e.1) matches Ok(next) ==> visit_inv(next, p.push(e)),
{
    let q = p.push(e);
    let n = p.len() as int;
    assert(q[n] == e);
    reveal_strlit("errcode");
    reveal_strlit("soft_logout");
    reveal_strlit("retry_after_ms");
    reveal_strlit("room_version");
    reveal_strlit("admin_contact");
    reveal_strlit("status");
    reveal_strlit("body");
    reveal_strlit("current_version");
    assert forall|x: (Seq<char>, JsonView)| p.contains(x) implies x.0 != e.0 && #[trigger] q.contains(
        x,
    ) by {
        let i = choose|i: int| 0 <= i < p.len() && p[i] == x;
        assert(q[i] == x);
        assert(q[i].0 != q[n].0);
    }
    assert forall|x: (Seq<char>, JsonView)| #[trigger] q.contains(x) implies p.contains(x) || x == e by {
        let i = choose|i: int| 0 <= i < q.len() && q[i] == x;
        if i < n {
            assert(p[i] == x);
        }
    }
    assert(q.contains(e));
    assert forall|i: int, j: int| 0 <= i < j < p.len() implies (#[trigger] p[i]).0 != (
    #[trigger] p[j]).0 by {
        assert(q[i] == p[i] && q[j] == p[j]);
    }
    if bad_errcode(p.push(e)) {
        let i = choose|i: int|
            0 <= i < q.len() && (#[trigger] q[i]).0 == "errcode"@ && !(q[i].1 is String);
        if i < n {
            assert(p[i] == q[i]);
            assert(bad_errcode(p));
        }
    }
    if e.0 == "errcode"@ && !(e.1 is String) {
        assert(bad_errcode(q));
    }
    if !bad_errcode(q) {
        assert forall|i: int| 0 <= i < n implies !((#[trigger] p[i]).0 == "errcode"@ && !(
        p[i].1 is String)) by {
            assert(q[i] == p[i]);
        }
    }
    match known_field(e.0) {
        Some(FieldName::ErrCode) => {
            assert(e.0 == "errcode"@);
            if st.errcode is Some {
                let t = st.errcode->0;
                lemma_prefix_key(p, e, ("errcode"@, JsonView::String(t)));
            }
            if let JsonView::String(t) = e.1 {
                let next = VisitModel { errcode: Some(t), ..st };
                assert(visit_step(st, e.0, e.1) == Ok::<VisitModel, DeErrorView>(next));
                assert forall|x: (Seq<char>, JsonView)| #[trigger] q.contains(x) implies slot_holds(next, x) by {
                    let f = known_field(x.0)->0;
                    if x == e {
                    } else {
                        assert(p.contains(x));
                    }
                }
                assert forall|f: FieldName|
                    f != FieldName::ErrCode && (#[trigger] slot(next, f)) is Some implies exists|
                    x: (Seq<char>, JsonView),
                | #[trigger] q.contains(x) && known_field(x.0) == Some(f) && x.1 == slot(next, f)->0 by {
                    let v = slot(next, f)->0;
                    assert(slot(st, f) == Some(v));
                    let x = choose|x: (Seq<char>, JsonView)|
                        #[trigger] p.contains(x) && known_field(x.0) == Some(f) && x.1 == v;
                    assert(q.contains(x));
                }
            }
        },
        Some(f) => {
            if st.errcode is None && has_key(q, "errcode"@) {
                let i = choose|i: int| 0 <= i < q.len() && (#[trigger] q[i]).0 == "errcode"@;
                if i < n {
                    assert(p[i] == q[i]);
                } else {
                    assert(q[i] == e);
                }
            }
            if field_admitted(st.errcode, f) {
                if slot(st, f) is Some {
                    let v = slot(st, f)->0;
                    let x = choose|x: (Seq<char>, JsonView)|
                        #[trigger] p.contains(x) && known_field(x.0) == Some(f) && x.1 == v;
                    lemma_prefix_key(p, e, x);
                    lemma_known_field_key(x.0, e.0);
                }
                let next = with_slot(st, f, e.1);
                assert forall|g: FieldName|
                    g != FieldName::ErrCode && (#[trigger] slot(next, g)) is Some implies exists|
                    x: (Seq<char>, JsonView),
                | #[trigger] q.contains(x) && known_field(x.0) == Some(g) && x.1 == slot(next, g)->0 by {
                    let v = slot(next, g)->0;
                    if g == f {
                        assert(q.contains(e));
                    } else {
                        assert(slot(st, g) == Some(v));
                        let x = choose|x: (Seq<char>, JsonView)|
                            #[trigger] p.contains(x) && known_field(x.0) == Some(g) && x.1 == v;
                        assert(q.contains(x));
                    }
                }
                assert forall|x: (Seq<char>, JsonView)| #[trigger] q.contains(x) implies slot_holds(next, x) by {
                    let g = known_field(x.0)->0;
                    if x == e {
                    } else if known_field(x.0) is Some {
                        assert(p.contains(x));
                        lemma_prefix_key(p, e, x);
                        if g == f {
                            lemma_known_field_key(x.0, e.0);
                        }
                    }
                }
            } else {
                if slot(st, f) is Some {
                    let v = slot(st, f)->0;
                    let x = choose|x: (Seq<char>, JsonView)|
                        #[trigger] p.contains(x) && known_field(x.0) == Some(f) && x.1 == v;
                    lemma_prefix_key(p, e, x);
                    lemma_known_field_key(x.0, e.0);
                }
                assert forall|g: FieldName|
                    g != FieldName::ErrCode && (#[trigger] slot(st, g)) is Some implies exists|
                    x: (Seq<char>, JsonView),
                | #[trigger] q.contains(x) && known_field(x.0) == Some(g) && x.1 == slot(st, g)->0 by {
                    let v = slot(st, g)->0;
                    let x = choose|x: (Seq<char>, JsonView)|
                        #[trigger] p.contains(x) && known_field(x.0) == Some(g) && x.1 == v;
                    assert(q.contains(x));
                }
                assert forall|x: (Seq<char>, JsonView)| #[trigger] q.contains(x) implies slot_holds(st, x) by {
                    let g = known_field(x.0)->0;
                    if x == e {
                    } else {
                        assert(p.contains(x));
                    }
                }
            }
        },
        None => {
            if has_key(st.extra, e.0) {
                let i = choose|i: int| 0 <= i < st.extra.len() && (#[trigger] st.extra[i]).0 == e.0;
                assert(st.extra.contains(st.extra[i]));
                lemma_prefix_key(p, e, st.extra[i]);
            }
            lemma_sorted_insert(st.extra, e.0, e.1);
            let next = VisitModel { extra: sorted_insert(st.extra, e.0, e.1), ..st };
            assert forall|x: (Seq<char>, JsonView)| #[trigger]
                next.extra.contains(x) <==> q.contains(x) && known_field(x.0) is None by {
                lemma_sorted_insert_contains(st.extra, e.0, e.1, x);
            }
            assert forall|g: FieldName|
                g != FieldName::ErrCode && (#[trigger] slot(next, g)) is Some implies exists|
                x: (Seq<char>, JsonView),
            | #[trigger] q.contains(x) && known_field(x.0) == Some(g) && x.1 == slot(next, g)->0 by {
                let v = slot(next, g)->0;
                assert(slot(st, g) == Some(v));
                let x = choose|x: (Seq<char>, JsonView)|
                    #[trigger] p.contains(x) && known_field(x.0) == Some(g) && x.1 == v;
                assert(q.contains(x));
            }
            assert forall|x: (Seq<char>, JsonView)| #[trigger] q.contains(x) implies slot_holds(next, x) by {
                let g = known_field(x.0)->0;
                if x == e {
                } else {
                    assert(p.contains(x));
                }
            }
            if st.errcode is None {
                if has_key(q, "errcode"@) {
                    let i = choose|i: int| 0 <= i < q.len() && (#[trigger] q[i]).0 == "errcode"@;
                    if i < n {
                        assert(p[i] == q[i]);
                    }
                }
            }
        },
    }
}

/// Reading the entries `rest` after `p` keeps [`visit_inv`]; it fails, with
/// an invalid error code, exactly when the error code is not a string.
proof fn lemma_visit_fold_inv(
    st: VisitModel,
    p: Seq<(Seq<char>, JsonView)>,
    rest: Seq<(Seq<char>, JsonView)>,
)
    requires
        visit_inv(st, p),
        distinct_keys(p + rest),
    ensures
        visit_fold(st, rest) is Err <==> bad_errcode(p + rest),
        visit_fold(st, rest) matches Err(x) ==> x == DeErrorView::InvalidValue(FieldName::ErrCode),
        visit_fold(st, rest) matches Ok(fin) ==> visit_inv(fin, p + rest),
    decreases rest.len(),
{
    let all = p + rest;
    if rest.len() == 0 {
        assert(all =~= p);
    } else {
        let e = rest[0];
        let q = p.push(e);
        let n = p.len() as int;
        assert(q + rest.drop_first() =~= all);
        assert forall|i: int, j: int| 0 <= i < j < q.len() implies (#[trigger] q[i]).0 != (
        #[trigger] q[j]).0 by {
            assert(q[i] == all[i] && q[j] == all[j]);
        }
        lemma_visit_step_inv(st, p, e);
        match visit_step(st, e.0, e.1) {
            Ok(next) => {
                lemma_visit_fold_inv(next, q, rest.drop_first());
            },
            Err(x) => {
                let k = choose|k: int|
                    0 <= k < q.len() && (#[trigger] q[k]).0 == "errcode"@ && !(q[k].1 is String);
                assert(all[k] == q[k]);
                assert(bad_errcode(all));
            },
        }
    }
}

/// Two sequences of entries in strict key order with the same entries are
/// the same sequence.
proof fn lemma_sorted_same_entries(s1: Seq<(Seq<char>, JsonView)>, s2: Seq<(Seq<char>, JsonView)>)
    requires
        sorted_keys(s1),
        sorted_keys(s2),
        forall|e: (Seq<char>, JsonView)| s1.contains(e) <==> s2.contains(e),
    ensures
        s1 == s2,
    decreases s1.len(),
{
    if s1.len() == 0 {
        if s2.len() > 0 {
            assert(s2.contains(s2[0]));
        }
        assert(s1 =~= s2);
    } else if s2.len() == 0 {
        assert(s1.contains(s1[0]));
    } else {
        assert(s1.contains(s1[0]));
        assert(s2.contains(s2[0]));
        let j = choose|j: int| 0 <= j < s2.len() && s2[j] == s1[0];
        let i = choose|i: int| 0 <= i < s1.len() && s1[i] == s2[0];
        lemma_str_lt_total(s1[0].0, s2[0].0);
        if j > 0 {
            assert(str_lt(s2[0].0, s2[j].0));
            if i > 0 {
                assert(str_lt(s1[0].0, s1[i].0));
            }
        }
        if i > 0 && j == 0 {
            assert(str_lt(s1[0].0, s1[i].0));
        }
        assert(s1[0] == s2[0]);
        let t1 = s1.drop_first();
        let t2 = s2.drop_first();
        assert forall|i: int, j: int| 0 <= i < j < t1.len() implies str_lt(
            #[trigger] t1[i].0,
            #[trigger] t1[j].0,
        ) by {
            assert(t1[i] == s1[i + 1] && t1[j] == s1[j + 1]);
        }
        assert forall|i: int, j: int| 0 <= i < j < t2.len() implies str_lt(
            #[trigger] t2[i].0,
            #[trigger] t2[j].0,
        ) by {
            assert(t2[i] == s2[i + 1] && t2[j] == s2[j + 1]);
        }
        assert forall|e: (Seq<char>, JsonView)| t1.contains(e) <==> t2.contains(e) by {
            if t1.contains(e) {
                let k = choose|k: int| 0 <= k < t1.len() && t1[k] == e;
                assert(s1[k + 1] == e);
                assert(str_lt(s1[0].0, s1[k + 1].0));
                lemma_str_lt_total(e.0, e.0);
                assert(s2.contains(e));
                let m = choose|m: int| 0 <= m < s2.len() && s2[m] == e;
                assert(m != 0);
                assert(t2[m - 1] == e);
            }
            if t2.contains(e) {
                let k = choose|k: int| 0 <= k < t2.len() && t2[k] == e;
                assert(s2[k + 1] == e);
                assert(str_lt(s2[0].0, s2[k + 1].0));
                lemma_str_lt_total(e.0, e.0);
                assert(s1.contains(e));
                let m = choose|m: int| 0 <= m < s1.len() && s1[m] == e;
                assert(m != 0);
                assert(t1[m - 1] == e);
            }
        }
        lemma_sorted_same_entries(t1, t2);
        assert(s1.len() == t1.len() + 1 && s2.len() == t2.len() + 1);
        assert forall|k: int| 0 <= k < s1.len() implies s1[k] == s2[k] by {
            if k > 0 {
                assert(s1[k] == t1[k - 1]);
                assert(s2[k] == t2[k - 1]);
            }
        }
        assert(s1 =~= s2);
    }
}

/// Finishing depends only on the error code, the other fields, and the
/// known fields that the code lets in.
proof fn lemma_visit_finish_same(st1: VisitModel, st2: VisitModel)
    requires
        st1.errcode == st2.errcode,
        st1.extra == st2.extra,
        forall|f: FieldName| #[trigger] field_admitted(st1.errcode, f) ==> slot(st1, f) == slot(st2, f),
    ensures
        visit_finish(st1) == visit_finish(st2),
{
    assert(field_admitted(st1.errcode, FieldName::SoftLogout) ==> st1.soft_logout == st2.soft_logout);
    assert(field_admitted(st1.errcode, FieldName::RetryAfterMs) ==> st1.retry_after_ms
        == st2.retry_after_ms);
    assert(field_admitted(st1.errcode, FieldName::RoomVersion) ==> st1.room_version
        == st2.room_version);
    assert(field_admitted(st1.errcode, FieldName::AdminContact) ==> st1.admin_contact
        == st2.admin_contact);
    assert(field_admitted(st1.errcode, FieldName::Status) ==> st1.status == st2.status);
    assert(field_admitted(st1.errcode, FieldName::Body) ==> st1.body == st2.body);
    assert(field_admitted(st1.errcode, FieldName::CurrentVersion) ==> st1.current_version
        == st2.current_version);
}

/// The kind read from the entries of a JSON object does not depend on their
/// order: two orders of the same entries, under pairwise distinct keys, read
/// as the same kind, or fail with the same error.
pub proof fn lemma_visit_order_independent(
    es1: Seq<(Seq<char>, JsonView)>,
    es2: Seq<(Seq<char>, JsonView)>,
)
    requires
        distinct_keys(es1),
        distinct_keys(es2),
        forall|e: (Seq<char>, JsonView)| es1.contains(e) <==> es2.contains(e),
    ensures
        visit_entries(es1) == visit_entries(es2),
{
    let init = initial_visit();
    let empty = Seq::<(Seq<char>, JsonView)>::empty();
    assert(empty + es1 =~= es1);
    assert(empty + es2 =~= es2);
    assert(visit_inv(init, empty));
    lemma_visit_fold_inv(init, empty, es1);
    lemma_visit_fold_inv(init, empty, es2);
    if bad_errcode(es1) {
        let k = choose|k: int|
            0 <= k < es1.len() && (#[trigger] es1[k]).0 == "errcode"@ && !(es1[k].1 is String);
        assert(es1.contains(es1[k]));
        let m = choose|m: int| 0 <= m < es2.len() && es2[m] == es1[k];
        assert(bad_errcode(es2));
    }
    if bad_errcode(es2) {
        let k = choose|k: int|
            0 <= k < es2.len() && (#[trigger] es2[k]).0 == "errcode"@ && !(es2[k].1 is String);
        assert(es2.contains(es2[k]));
        let m = choose|m: int| 0 <= m < es1.len() && es1[m] == es2[k];
        assert(bad_errcode(es1));
    }
    if !bad_errcode(es1) {
        let st1 = visit_fold(init, es1)->Ok_0;
        let st2 = visit_fold(init, es2)->Ok_0;
        if st1.errcode is Some {
            let t1 = st1.errcode->0;
            let x = ("errcode"@, JsonView::String(t1));
            assert(es2.contains(x));
            let m = choose|m: int| 0 <= m < es2.len() && es2[m] == x;
            assert(es2[m].0 == "errcode"@);
            assert(has_key(es2, "errcode"@));
            let t2 = st2.errcode->0;
            lemma_same_key_same_entry(es2, x, ("errcode"@, JsonView::String(t2)));
        } else if st2.errcode is Some {
            let t2 = st2.errcode->0;
            let x = ("errcode"@, JsonView::String(t2));
            assert(es1.contains(x));
            let m = choose|m: int| 0 <= m < es1.len() && es1[m] == x;
            assert(es1[m].0 == "errcode"@);
            assert(has_key(es1, "errcode"@));
        }
        assert(st1.errcode == st2.errcode);
        assert forall|e: (Seq<char>, JsonView)| st1.extra.contains(e) <==> st2.extra.contains(e) by {
            assert(st1.extra.contains(e) <==> es1.contains(e) && known_field(e.0) is None);
            assert(st2.extra.contains(e) <==> es2.contains(e) && known_field(e.0) is None);
        }
        lemma_sorted_same_entries(st1.extra, st2.extra);
        assert forall|f: FieldName| #[trigger] field_admitted(st1.errcode, f) implies slot(st1, f)
            == slot(st2, f) by {
            if f != FieldName::ErrCode {
                if exists|x: (Seq<char>, JsonView)| #[trigger]
                    es1.contains(x) && known_field(x.0) == Some(f) {
                    let x = choose|x: (Seq<char>, JsonView)| #[trigger]
                        es1.contains(x) && known_field(x.0) == Some(f);
                    assert(slot_holds(st1, x));
                    assert(es2.contains(x));
                    assert(slot_holds(st2, x));
                } else {
                    if slot(st1, f) is Some {
                        let x = choose|x: (Seq<char>, JsonView)| #[trigger]
                            es1.contains(x) && known_field(x.0) == Some(f) && x.1 == slot(st1, f)->0;
                    }
                    if slot(st2, f) is Some {
                        let x = choose|x: (Seq<char>, JsonView)| #[trigger]
                            es2.contains(x) && known_field(x.0) == Some(f) && x.1 == slot(st2, f)->0;
                        assert(es1.contains(x));
                    }
                }
            }
        }
        lemma_visit_finish_same(st1, st2);
    }
}

/// An error object whose code is `M_WRONG_ROOM_KEYS_VERSION` reads as that
/// kind, whichever of its two entries comes first: a `current_version` text
/// `s` is kept as `Some(s)`, and `null` as none.
pub proof fn lemma_wrong_room_keys_version_read(s: Seq<char>)
    ensures
        visit_entries(
            seq![
                ("errcode"@, JsonView::String("M_WRONG_ROOM_KEYS_VERSION"@)),
                ("current_version"@, JsonView::String(s)),
            ],
        ) == Ok::<ErrorKindView, DeErrorView>(
            ErrorKindView::WrongRoomKeysVersion { current_version: Some(s) },
        ),
        visit_entries(
            seq![
                ("current_version"@, JsonView::String(s)),
                ("errcode"@, JsonView::String("M_WRONG_ROOM_KEYS_VERSION"@)),
            ],
        ) == Ok::<ErrorKindView, DeErrorView>(
            ErrorKindView::WrongRoomKeysVersion { current_version: Some(s) },
        ),
        visit_entries(
            seq![
                ("errcode"@, JsonView::String("M_WRONG_ROOM_KEYS_VERSION"@)),
                ("current_version"@, JsonView::Null),
            ],
        ) == Ok::<ErrorKindView, DeErrorView>(
            ErrorKindView::WrongRoomKeysVersion { current_version: None },
        ),
{
    lemma_known_field_keys();
    lemma_errcode_round_trip(ErrorKindView::WrongRoomKeysVersion { current_version: None });
    let code = JsonView::String("M_WRONG_ROOM_KEYS_VERSION"@);
    let cv = JsonView::String(s);
    let e1 = seq![("errcode"@, code), ("current_version"@, cv)];
    assert(e1.drop_first().drop_first() =~= Seq::<(Seq<char>, JsonView)>::empty());
    let e2 = seq![("current_version"@, cv), ("errcode"@, code)];
    assert(e2.drop_first().drop_first() =~= Seq::<(Seq<char>, JsonView)>::empty());
    let e3 = seq![("errcode"@, code), ("current_version"@, JsonView::Null)];
    assert(e3.drop_first().drop_first() =~= Seq::<(Seq<char>, JsonView)>::empty());
    reveal_with_fuel(visit_fold, 3);
}

/// The key of each known field.
proof fn lemma_known_field_keys()
    ensures
        known_field("errcode"@) == Some(FieldName::ErrCode),
        known_field("soft_logout"@) == Some(FieldName::SoftLogout),
        known_field("retry_after_ms"@) == Some(FieldName::RetryAfterMs),
        known_field("room_version"@) == Some(FieldName::RoomVersion),
        known_field("admin_contact"@) == Some(FieldName::AdminContact),
        known_field("status"@) == Some(FieldName::Status),
        known_field("body"@) == Some(FieldName::Body),
        known_field("current_version"@) == Some(FieldName::CurrentVersion),
{
    reveal_strlit("errcode");
    reveal_strlit("soft_logout");
    reveal_strlit("retry_after_ms");
    reveal_strlit("room_version");
    reveal_strlit("admin_contact");
    reveal_strlit("status");
    reveal_strlit("body");
    reveal_strlit("current_version");
    assert("soft_logout"@.len() != "errcode"@.len());
    assert("retry_after_ms"@.len() != "errcode"@.len());
    assert("retry_after_ms"@.len() != "soft_logout"@.len());
    assert("room_version"@.len() != "errcode"@.len());
    assert("room_version"@.len() != "soft_logout"@.len());
    assert("room_version"@.len() != "retry_after_ms"@.len());
    assert("admin_contact"@.len() != "errcode"@.len());
    assert("admin_contact"@.len() != "soft_logout"@.len());
    assert("admin_contact"@.len() != "retry_after_ms"@.len());
    assert("admin_contact"@.len() != "room_version"@.len());
    assert("status"@.len() != "errcode"@.len());
    assert("status"@.len() != "soft_logout"@.len());
    assert("status"@.len() != "retry_after_ms"@.len());
    assert("status"@.len() != "room_version"@.len());
    assert("status"@.len() != "admin_contact"@.len());
    assert("body"@.len() != "errcode"@.len());
    assert("body"@.len() != "soft_logout"@.len());
    assert("body"@.len() != "retry_after_ms"@.len());
    assert("body"@.len() != "room_version"@.len());
    assert("body"@.len() != "admin_contact"@.len());
    assert("body"@.len() != "status"@.len());
    assert("current_version"@.len() != "errcode"@.len());
    assert("current_version"@.len() != "soft_logout"@.len());
    assert("current_version"@.len() != "retry_after_ms"@.len());
    assert("current_version"@.len() != "room_version"@.len());
    assert("current_version"@.len() != "admin_contact"@.len());
    assert("current_version"@.len() != "status"@.len());
    assert("current_version"@.len() != "body"@.len());
}

/// An error object with a code whose kind carries a field reads that field
/// from its entry: `soft_logout` (absent meaning `false`), `retry_after_ms`
/// in milliseconds (absent meaning none), `admin_contact`, and a
/// `room_version` that is accepted as a room version.
pub proof fn lemma_kind_fields_read(
    soft_logout: bool,
    retry_after_ms: u64,
    admin_contact: Seq<char>,
    room_version: Seq<char>,
)
    ensures
        visit_entries(
            seq![
                ("errcode"@, JsonView::String("M_UNKNOWN_TOKEN"@)),
                ("soft_logout"@, JsonView::Bool(soft_logout)),
            ],
        ) == Ok::<ErrorKindView, DeErrorView>(ErrorKindView::UnknownToken { soft_logout }),
        visit_entries(seq![("errcode"@, JsonView::String("M_UNKNOWN_TOKEN"@))]) == Ok::<
            ErrorKindView,
            DeErrorView,
        >(ErrorKindView::UnknownToken { soft_logout: false }),
        visit_entries(
            seq![
                ("errcode"@, JsonView::String("M_LIMIT_EXCEEDED"@)),
                ("retry_after_ms"@, JsonView::Number(JsonNumberView::PosInt(retry_after_ms))),
            ],
        ) == Ok::<ErrorKindView, DeErrorView>(
            ErrorKindView::LimitExceeded {
                retry_after_ms: Some(Duration::spec_from_millis(retry_after_ms)),
            },
        ),
        visit_entries(seq![("errcode"@, JsonView::String("M_LIMIT_EXCEEDED"@))]) == Ok::<
            ErrorKindView,
            DeErrorView,
        >(ErrorKindView::LimitExceeded { retry_after_ms: None }),
        visit_entries(
            seq![
                ("errcode"@, JsonView::String("M_RESOURCE_LIMIT_EXCEEDED"@)),
                ("admin_contact"@, JsonView::String(admin_contact)),
            ],
        ) == Ok::<ErrorKindView, DeErrorView>(
            ErrorKindView::ResourceLimitExceeded { admin_contact },
        ),
        room_version_accepted(room_version) ==> visit_entries(
            seq![
                ("errcode"@, JsonView::String("M_INCOMPATIBLE_ROOM_VERSION"@)),
                ("room_version"@, JsonView::String(room_version)),
            ],
        ) == Ok::<ErrorKindView, DeErrorView>(
            ErrorKindView::IncompatibleRoomVersion { room_version },
        ),
{
    lemma_known_field_keys();
    lemma_errcode_round_trip(ErrorKindView::UnknownToken { soft_logout: false });
    lemma_errcode_round_trip(ErrorKindView::LimitExceeded { retry_after_ms: None });
    lemma_errcode_round_trip(ErrorKindView::ResourceLimitExceeded { admin_contact: Seq::empty() });
    lemma_errcode_round_trip(ErrorKindView::IncompatibleRoomVersion { room_version: Seq::empty() });
    let none = Seq::<(Seq<char>, JsonView)>::empty();
    let c1 = ("errcode"@, JsonView::String("M_UNKNOWN_TOKEN"@));
    assert(seq![c1, ("soft_logout"@, JsonView::Bool(soft_logout))].drop_first().drop_first() =~= none);
    assert(seq![c1].drop_first() =~= none);
    let c2 = ("errcode"@, JsonView::String("M_LIMIT_EXCEEDED"@));
    assert(seq![c2, ("retry_after_ms"@, JsonView::Number(JsonNumberView::PosInt(retry_after_ms)))].drop_first().drop_first() =~= none);
    assert(seq![c2].drop_first() =~= none);
    let c3 = ("errcode"@, JsonView::String("M_RESOURCE_LIMIT_EXCEEDED"@));
    assert(seq![c3, ("admin_contact"@, JsonView::String(admin_contact))].drop_first().drop_first() =~= none);
    let c4 = ("errcode"@, JsonView::String("M_INCOMPATIBLE_ROOM_VERSION"@));
    assert(seq![c4, ("room_version"@, JsonView::String(room_version))].drop_first().drop_first() =~= none);
    reveal_with_fuel(visit_fold, 3);
}

/// An object with the code `M_BAD_STATUS` reads its `status`, an HTTP
/// status code from 100 to 999, and its `body` text; without them both are
/// none. An object whose code is not a listed one is a custom kind that
/// keeps that code and its entries that are not known fields.
pub proof fn lemma_bad_status_and_custom_read(
    status: u64,
    body: Seq<char>,
    code: Seq<char>,
    key: Seq<char>,
    value: JsonView,
)
    ensures
        100 <= status < 1000 ==> visit_entries(
            seq![
                ("errcode"@, JsonView::String("M_BAD_STATUS"@)),
                ("status"@, JsonView::Number(JsonNumberView::PosInt(status))),
                ("body"@, JsonView::String(body)),
            ],
        ) == Ok::<ErrorKindView, DeErrorView>(
            ErrorKindView::BadStatus { status: Some(status as u16), body: Some(body) },
        ),
        visit_entries(seq![("errcode"@, JsonView::String("M_BAD_STATUS"@))]) == Ok::<
            ErrorKindView,
            DeErrorView,
        >(ErrorKindView::BadStatus { status: None, body: None }),
        known_errcode(code) is None && known_field(key) is None ==> visit_entries(
            seq![("errcode"@, JsonView::String(code)), (key, value)],
        ) == Ok::<ErrorKindView, DeErrorView>(
            ErrorKindView::_Custom { errcode: code, extra: seq![(key, value)] },
        ),
{
    lemma_known_field_keys();
    lemma_errcode_round_trip(ErrorKindView::BadStatus { status: None, body: None });
    let none = Seq::<(Seq<char>, JsonView)>::empty();
    let c = ("errcode"@, JsonView::String("M_BAD_STATUS"@));
    let e1 = seq![
        c,
        ("status"@, JsonView::Number(JsonNumberView::PosInt(status))),
        ("body"@, JsonView::String(body)),
    ];
    assert(e1.drop_first().drop_first().drop_first() =~= none);
    assert(seq![c].drop_first() =~= none);
    let e3 = seq![("errcode"@, JsonView::String(code)), (key, value)];
    assert(e3.drop_first().drop_first() =~= none);
    assert(!has_key(none, key));
    assert(insert_pos(none, key) == 0);
    assert(none.insert(0, (key, value)) =~= seq![(key, value)]);
    reveal_with_fuel(visit_fold, 4);
}

} // verus!
