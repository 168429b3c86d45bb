//! The session state of a client: the homeserver's base URL, the server
//! name, and the access token that authenticates requests.

use vstd::prelude::*;
use vstd::string::*;
use vstd::utf8::*;

verus! {

/// The text of the URL that parsing a text gives, if it parses.
pub uninterp spec fn url_parse(s: Seq<char>) -> Option<Seq<char>>;

/// Parses a URL with `url::Url::parse` and gives its serialization
/// (`Url::as_str`). The outcome is named; that a serialization parses again
/// to itself is what `Url::check_invariants` asserts of every URL.
#[verifier::external_body]
pub(crate) fn parse_url(s: &str) -> (r: Option<String>)
    ensures
        r is Some <==> url_parse(s@) is Some,
        r matches Some(u) ==> url_parse(s@) == Some(u@) && url_parse(u@) == Some(u@),
{
    url::Url::parse(s).ok().map(|u| u.as_str().to_owned())
}

/// The text of the URL that a text parses to, once `url::Url::set_path` has
/// given it a path.
pub uninterp spec fn url_set_path(url: Seq<char>, path: Seq<char>) -> Seq<char>;

/// The text of the URL that a text parses to, once `url::Url::set_query` has
/// given it a query.
pub uninterp spec fn url_set_query(url: Seq<char>, query: Seq<char>) -> Seq<char>;

/// The bound below which `url` keeps a URL: it indexes the text of a URL
/// with `u32`, and `set_path` and `set_query` unwrap that conversion.
/// Parsing and setting a path or query write each character in at most
/// twelve bytes (four UTF-8 bytes, each percent-encoded as three), so texts
/// below a twelfth of 4 GiB stay within it.
pub open spec fn url_size_limit() -> int {
    357_913_941
}

/// Parses `url` and replaces its path with `url::Url::set_path`; none when
/// `url` does not parse. The outcome is named; like every URL's, its
/// serialization parses again to itself. `set_path` keeps the rest of the
/// URL and writes the path with at most one added `/` or `%2F`, each of its
/// characters as itself or percent-encoded, at most twelve characters; so
/// when `url` is already the text of a URL, the result is at most that much
/// longer. (Parsing may itself lengthen a text that is not yet one.)
#[verifier::external_body]
pub(crate) fn set_url_path(url: &str, path: &str) -> (r: Option<String>)
    requires
        url@.len() + path@.len() < url_size_limit(),
    ensures
        r is Some <==> url_parse(url@) is Some,
        r matches Some(u) ==> u@ == url_set_path(url@, path@) && url_parse(u@) == Some(u@),
        url_parse(url@) == Some(url@) ==> (r matches Some(u) ==> u@.len() <= url@.len() + 12
            * path@.len() + 3),
{
    match url::Url::parse(url) {
        Ok(mut u) => {
            u.set_path(path);
            Some(u.as_str().to_owned())
        },
        Err(_) => None,
    }
}

/// Parses `url` and replaces its query with `url::Url::set_query`; none
/// when `url` does not parse. The outcome is named.
#[verifier::external_body]
pub(crate) fn set_url_query(url: &str, query: &str) -> (r: Option<String>)
    requires
        url@.len() + query@.len() < url_size_limit(),
    ensures
        r is Some <==> url_parse(url@) is Some,
        r matches Some(u) ==> u@ == url_set_query(url@, query@) && url_parse(u@) == Some(u@),
{
    match url::Url::parse(url) {
        Ok(mut u) => {
            u.set_query(Some(query));
            Some(u.as_str().to_owned())
        },
        Err(_) => None,
    }
}

/// The URL of `path` on the homeserver at `base` (a URL that parses).
pub(crate) fn url_for_path(base: &String, path: &str) -> (r: String)
    requires
        url_parse(base@) == Some(base@),
        base@.len() + path@.len() < url_size_limit(),
    ensures
        r@ == url_set_path(base@, path@),
        url_parse(r@) == Some(r@),
        r@.len() <= base@.len() + 12 * path@.len() + 3,
{
    match set_url_path(base.as_str(), path) {
        Some(u) => u,
        None => {
            assert(false);
            String::new()
        },
    }
}

/// The URL of `path` with the query `query` on the homeserver at `base`.
pub(crate) fn url_for_path_and_query(base: &String, path: &str, query: &str) -> (r: String)
    requires
        url_parse(base@) == Some(base@),
        base@.len() + 12 * path@.len() + query@.len() + 3 < url_size_limit(),
    ensures
        r@ == url_set_query(url_set_path(base@, path@), query@),
{
    let with_path = url_for_path(base, path);
    match set_url_query(with_path.as_str(), query) {
        Some(u) => u,
        None => {
            assert(false);
            String::new()
        },
    }
}

/// A byte that may stand in an HTTP header value: visible ASCII, a space, a
/// tab, or any byte from 128 up.
pub open spec fn header_byte(b: u8) -> bool {
    (b >= 32 && b != 127) || b == 9
}

/// Checks a header value with `http::HeaderValue::from_str`, which accepts a
/// text exactly when each of its UTF-8 bytes is a [`header_byte`].
#[verifier::external_body]
pub(crate) fn header_value_is_valid(s: &str) -> (r: bool)
    ensures
        r <==> forall|i: int| 0 <= i < encode_utf8(s@).len() ==> header_byte(
            #[trigger] encode_utf8(s@)[i],
        ),
{
    http::HeaderValue::from_str(s).is_ok()
}

/// A status from 200 to 299.
pub open spec fn status_is_success(status: u16) -> bool {
    200 <= status < 300
}

/// Whether a response status reports success, as
/// `http::StatusCode::is_success` decides it.
pub fn is_success(status: u16) -> (r: bool)
    ensures
        r == status_is_success(status),
{
    200 <= status && status < 300
}

/// What can go wrong setting up a client or a request.
#[derive(Debug, PartialEq, Eq)]
pub enum ClientError {
    /// The base URL does not parse.
    InvalidUrl,
    /// An empty access token was given.
    EmptyToken,
    /// The access token cannot stand in an `Authorization` header.
    InvalidHeaderValue,
}

/// The value of the `Authorization` header for an access token.
pub open spec fn bearer(token: Seq<char>) -> Seq<char> {
    "Bearer "@ + token
}

/// The `Authorization` header value for an optional access token: none
/// without a token, an error when the value is not a valid header value.
pub open spec fn authorization_for(token: Option<Seq<char>>) -> Result<Option<Seq<char>>, ClientError> {
    match token {
        None => Ok(None),
        Some(t) => if forall|i: int|
            0 <= i < encode_utf8(bearer(t)).len() ==> header_byte(#[trigger] encode_utf8(bearer(t))[i]) {
            Ok(Some(bearer(t)))
        } else {
            Err(ClientError::InvalidHeaderValue)
        },
    }
}

/// The view of an optional header value.
pub open spec fn header_result_view(r: Result<Option<String>, ClientError>) -> Result<
    Option<Seq<char>>,
    ClientError,
> {
    match r {
        Ok(Some(s)) => Ok(Some(s@)),
        Ok(None) => Ok(None),
        Err(e) => Err(e),
    }
}

/// A client whose token has been set authorizes its requests with that
/// token: the header is `Bearer ` and the token, unless that cannot stand in
/// a header, and a client whose token has been cleared sends none.
pub proof fn lemma_headers_follow_token(c: Client)
    ensures
        c.spec_token() is None ==> authorization_for(c.spec_token()) == Ok::<
            Option<Seq<char>>,
            ClientError,
        >(None),
        c.spec_token() matches Some(t) ==> (authorization_for(c.spec_token()) is Ok <==> forall|i: int|
            0 <= i < encode_utf8(bearer(t)).len() ==> header_byte(#[trigger] encode_utf8(bearer(t))[i])),
        c.spec_token() matches Some(t) ==> (authorization_for(c.spec_token()) matches Ok(v) ==> v
            == Some("Bearer "@ + t)),
{
}

/// Builds the `Authorization` header value for an optional access token.
pub(crate) fn authorization_header(token: &Option<String>) -> (r: Result<Option<String>, ClientError>)
    ensures
        header_result_view(r) == authorization_for(
            match token {
                Some(t) => Some(t@),
                None => None,
            },
        ),
{
    match token {
        None => Ok(None),
        Some(t) => {
            let mut value = "Bearer ".to_owned();
            value.append(t.as_str());
            if header_value_is_valid(value.as_str()) {
                Ok(Some(value))
            } else {
                Err(ClientError::InvalidHeaderValue)
            }
        },
    }
}

/// A client of the client-server API.
#[derive(Debug)]
pub struct Client {
    base_url: String,
    token: Option<String>,
    server_name: String,
}

impl Client {
    /// The base URL is the text of a URL.
    #[verifier::type_invariant]
    closed spec fn base_url_parses(&self) -> bool {
        url_parse(self.base_url@) == Some(self.base_url@)
    }

    /// The homeserver's base URL.
    pub closed spec fn spec_base_url(&self) -> Seq<char> {
        self.base_url@
    }

    /// The access token in use, if any.
    pub closed spec fn spec_token(&self) -> Option<Seq<char>> {
        match self.token {
            Some(t) => Some(t@),
            None => None,
        }
    }

    /// The homeserver's name.
    pub closed spec fn spec_server_name(&self) -> Seq<char> {
        self.server_name@
    }

    /// A client of the homeserver at `url`, without an access token; fails
    /// when `url` does not parse.
    pub fn new(url: &str, server_name: &str) -> (r: Result<Self, ClientError>)
        ensures
            r is Ok <==> url_parse(url@) is Some,
            r is Err ==> r == Err::<Self, ClientError>(ClientError::InvalidUrl),
            r matches Ok(c) ==> Some(c.spec_base_url()) == url_parse(url@) && c.spec_token() is None
                && c.spec_server_name() == server_name@,
    {
        match parse_url(url) {
            Some(base_url) => Ok(Self { base_url, token: None, server_name: server_name.to_owned() }),
            None => Err(ClientError::InvalidUrl),
        }
    }

    /// The homeserver's name.
    pub fn server_name(&self) -> (r: &str)
        ensures
            r@ == self.spec_server_name(),
    {
        self.server_name.as_str()
    }

    /// The homeserver's base URL.
    pub fn base_url(&self) -> (r: &str)
        ensures
            r@ == self.spec_base_url(),
    {
        self.base_url.as_str()
    }

    /// Sets the access token that authenticates requests. An empty token is
    /// refused, and clears the token in use.
    pub fn set_token(&mut self, token: String) -> (r: Result<(), ClientError>)
        ensures
            token@.len() == 0 ==> r == Err::<(), ClientError>(ClientError::EmptyToken)
                && final(self).spec_token() is None,
            token@.len() != 0 ==> r is Ok && final(self).spec_token() == Some(token@),
            final(self).spec_base_url() == old(self).spec_base_url(),
            final(self).spec_server_name() == old(self).spec_server_name(),
            after_token_call(*old(self), TokenCall::SetToken(token@), *final(self)),
    {
        proof {
            use_type_invariant(&*self);
        }
        if token.as_str().is_empty() {
            self.token = None;
            return Err(ClientError::EmptyToken);
        }
        self.token = Some(token);
        Ok(())
    }

    /// Clears the access token.
    pub fn clear_token(&mut self)
        ensures
            final(self).spec_token() is None,
            final(self).spec_base_url() == old(self).spec_base_url(),
            final(self).spec_server_name() == old(self).spec_server_name(),
            after_token_call(*old(self), TokenCall::ClearToken, *final(self)),
    {
        proof {
            use_type_invariant(&*self);
        }
        self.token = None;
    }

    /// The `Authorization` header value for the token in use: none without
    /// a token, `Bearer ` and the token otherwise, or an error when that is
    /// not a valid header value.
    pub fn build_headers(&self) -> (r: Result<Option<String>, ClientError>)
        ensures
            header_result_view(r) == authorization_for(self.spec_token()),
    {
        authorization_header(&self.token)
    }

    /// The URL of `path` on the homeserver: the base URL with its path
    /// replaced.
    pub fn build_url(&self, path: &str) -> (r: String)
        requires
            self.spec_base_url().len() + path@.len() < url_size_limit(),
        ensures
            r@ == url_set_path(self.spec_base_url(), path@),
    {
        proof {
            use_type_invariant(self);
        }
        url_for_path(&self.base_url, path)
    }

    /// The URL of `path` on the homeserver with the encoded query `params`.
    pub fn build_url_with_params(&self, path: &str, params: &str) -> (r: String)
        requires
            self.spec_base_url().len() + 12 * path@.len() + params@.len() + 3 < url_size_limit(),
        ensures
            r@ == url_set_query(url_set_path(self.spec_base_url(), path@), params@),
    {
        proof {
            use_type_invariant(self);
        }
        url_for_path_and_query(&self.base_url, path, params)
    }
}

/// A call on the token of a client: `set_token` with a text, or
/// `clear_token`.
pub enum TokenCall {
    SetToken(Seq<char>),
    ClearToken,
}

/// `after` is what a call on the token of `before` leaves: the same base URL
/// and server name, and the token set (an empty one is refused and clears
/// the token) or cleared.
pub open spec fn after_token_call(before: Client, call: TokenCall, after: Client) -> bool {
    &&& after.spec_base_url() == before.spec_base_url()
    &&& after.spec_server_name() == before.spec_server_name()
    &&& after.spec_token() == match call {
        TokenCall::SetToken(t) => if t.len() == 0 {
            None
        } else {
            Some(t)
        },
        TokenCall::ClearToken => None,
    }
}

/// Over any sequence of calls on its token, a client keeps the base URL and
/// the server name it was made with, and holds the token the last call left
/// (none before any call that set one).
pub proof fn lemma_token_calls_keep_server(states: Seq<Client>, calls: Seq<TokenCall>)
    requires
        states.len() == calls.len() + 1,
        forall|i: int| 0 <= i < calls.len() ==> after_token_call(states[i], calls[i], #[trigger] states[i + 1]),
    ensures
        forall|i: int|
            0 <= i < states.len() ==> (#[trigger] states[i]).spec_server_name()
                == states[0].spec_server_name() && states[i].spec_base_url()
                == states[0].spec_base_url(),
        calls.len() > 0 ==> after_token_call(
            states[calls.len() - 1],
            calls.last(),
            states.last(),
        ),
    decreases calls.len(),
{
    if calls.len() > 0 {
        let n = calls.len() as int;
        lemma_token_calls_keep_server(states.drop_last(), calls.drop_last());
        assert forall|i: int| 0 <= i < states.len() implies (#[trigger] states[i]).spec_server_name()
            == states[0].spec_server_name() && states[i].spec_base_url()
            == states[0].spec_base_url() by {
            if i < n {
                assert(states.drop_last()[i] == states[i]);
            } else {
                assert(states.drop_last()[n - 1] == states[n - 1]);
                assert(after_token_call(states[n - 1], calls[n - 1], states[n]));
            }
        }
    }
}

impl Clone for Client {
    /// A copy of the client: the same base URL, token and server name.
    fn clone(&self) -> (r: Self)
        ensures
            r.spec_base_url() == self.spec_base_url(),
            r.spec_token() == self.spec_token(),
            r.spec_server_name() == self.spec_server_name(),
    {
        proof {
            use_type_invariant(self);
        }
        let token = match &self.token {
            Some(t) => Some(t.clone()),
            None => None,
        };
        Client { base_url: self.base_url.clone(), token, server_name: self.server_name.clone() }
    }
}

} // verus!
