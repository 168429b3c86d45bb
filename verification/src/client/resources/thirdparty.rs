//! Third-party identifiers: asking for a validation token by email.

use rand::distributions::DistString;
use vstd::prelude::*;
use vstd::string::*;

use crate::client::resources::error::MatrixError;
use crate::text::str_eq;

verus! {

/// Handlers of the third-party identifier API.
#[derive(Debug)]
pub struct ThirdPartyHandle;

/// The identity server that sends the token; empty fields are not sent.
#[derive(Debug)]
pub struct IdentityServer {
    /// Sent as `id_access_token`.
    pub access_token: String,
    /// Sent as `id_server`.
    pub server_name: String,
}

impl Default for IdentityServer {
    fn default() -> (r: Self)
        ensures
            r.access_token@.len() == 0,
            r.server_name@.len() == 0,
    {
        IdentityServer {
            access_token: String::new(),
            server_name: String::new(),
        }
    }
}

/// A request for a validation token sent by email.
#[derive(Debug)]
pub struct RequestTokenBody {
    pub email: String,
    pub client_secret: String,
    pub id_server: IdentityServer,
    pub next_link: Option<String>,
    pub send_attempt: u64,
}

/// The session of a validation.
#[derive(Debug)]
pub struct RequestTokenResponse {
    /// Sent as `sid`.
    pub session_id: String,
    pub submit_url: Option<String>,
}

/// An ASCII letter or digit.
pub open spec fn is_ascii_alphanumeric(c: char) -> bool {
    ('0' <= c && c <= '9') || ('A' <= c && c <= 'Z') || ('a' <= c && c <= 'z')
}

/// Draws a client secret of `len` characters, sampled with `rand`'s
/// `Alphanumeric` distribution from the thread-local generator. The
/// documentation of `Alphanumeric` says it samples ASCII letters and digits;
/// which ones come out is chance, so only their number and class are stated.
/// The characters are gathered in a byte vector, which cannot hold more than
/// `isize::MAX` bytes.
#[verifier::external_body]
fn random_client_secret(len: usize) -> (r: String)
    requires
        len <= isize::MAX,
    ensures
        r@.len() == len,
        forall|i: int| 0 <= i < r@.len() ==> is_ascii_alphanumeric(#[trigger] r@[i]),
{
    rand::distributions::Alphanumeric.sample_string(&mut rand::thread_rng(), len)
}

/// How the answer to an email token request reads: `Some(true)` when the
/// server sent the token or does not know the address, `Some(false)` when
/// the address is in use, `None` when the server refuses the address, and
/// the server's message for any other error.
pub open spec fn email_token_outcome(success: bool, errcode: Seq<char>, error: Seq<char>) -> Result<
    Option<bool>,
    Seq<char>,
> {
    if success {
        Ok(Some(true))
    } else if errcode == "M_THREEPID_IN_USE"@ {
        Ok(Some(false))
    } else if errcode == "M_THREEPID_NOT_FOUND"@ {
        Ok(Some(true))
    } else if errcode == "M_THREEPID_DENIED"@ {
        Ok(None)
    } else {
        Err(error)
    }
}

impl ThirdPartyHandle {
    /// The path that asks for a token to reset a password by email.
    pub fn request_email_token_path() -> (r: String)
        ensures
            r@ == "/_matrix/client/v3/account/password/email/requestToken"@,
    {
        "/_matrix/client/v3/account/password/email/requestToken".to_owned()
    }

    /// A first request for an email token, under a fresh random client
    /// secret of 64 ASCII letters and digits, through no identity server.
    pub fn request_email_token_body(email: String, next_link: Option<String>) -> (r: RequestTokenBody)
        ensures
            r.email@ == email@,
            r.client_secret@.len() == 64,
            forall|i: int|
                0 <= i < r.client_secret@.len() ==> is_ascii_alphanumeric(#[trigger] r.client_secret@[i]),
            r.id_server.access_token@.len() == 0,
            r.id_server.server_name@.len() == 0,
            r.next_link == next_link,
            r.send_attempt == 1,
    {
        let client_secret = random_client_secret(64);
        RequestTokenBody {
            email,
            client_secret,
            id_server: IdentityServer { access_token: String::new(), server_name: String::new() },
            next_link,
            send_attempt: 1,
        }
    }

    /// Reads the answer to an email token request: whether it succeeded,
    /// and otherwise the server's error object.
    pub fn request_email_token_result(success: bool, error: &MatrixError) -> (r: Result<
        Option<bool>,
        String,
    >)
        ensures
            match r {
                Ok(v) => email_token_outcome(success, error.error_code@, error.error@) == Ok::<
                    Option<bool>,
                    Seq<char>,
                >(v),
                Err(m) => email_token_outcome(success, error.error_code@, error.error@) == Err::<
                    Option<bool>,
                    Seq<char>,
                >(m@),
            },
    {
        if success {
            Ok(Some(true))
        } else if str_eq(error.error_code.as_str(), "M_THREEPID_IN_USE") {
            Ok(Some(false))
        } else if str_eq(error.error_code.as_str(), "M_THREEPID_NOT_FOUND") {
            Ok(Some(true))
        } else if str_eq(error.error_code.as_str(), "M_THREEPID_DENIED") {
            Ok(None)
        } else {
            Err(error.error.clone())
        }
    }
}

/// A successful request means the token was sent. A failed one is an
/// answer only for `M_THREEPID_IN_USE` (the address is taken),
/// `M_THREEPID_NOT_FOUND` (taken as sent) and `M_THREEPID_DENIED` (refused);
/// with any other error code it fails with the server's message.
pub proof fn lemma_email_token_outcomes(errcode: Seq<char>, error: Seq<char>)
    ensures
        email_token_outcome(true, errcode, error) == Ok::<Option<bool>, Seq<char>>(Some(true)),
        email_token_outcome(false, "M_THREEPID_IN_USE"@, error) == Ok::<Option<bool>, Seq<char>>(
            Some(false),
        ),
        email_token_outcome(false, "M_THREEPID_NOT_FOUND"@, error) == Ok::<
            Option<bool>,
            Seq<char>,
        >(Some(true)),
        email_token_outcome(false, "M_THREEPID_DENIED"@, error) == Ok::<Option<bool>, Seq<char>>(
            None,
        ),
        errcode != "M_THREEPID_IN_USE"@ && errcode != "M_THREEPID_NOT_FOUND"@ && errcode
            != "M_THREEPID_DENIED"@ ==> email_token_outcome(false, errcode, error) == Err::<
            Option<bool>,
            Seq<char>,
        >(error),
{
    reveal_strlit("M_THREEPID_IN_USE");
    reveal_strlit("M_THREEPID_NOT_FOUND");
    reveal_strlit("M_THREEPID_DENIED");
    assert("M_THREEPID_NOT_FOUND"@.len() != "M_THREEPID_IN_USE"@.len());
    assert("M_THREEPID_DENIED"@[11] != "M_THREEPID_IN_USE"@[11]);
    assert("M_THREEPID_DENIED"@.len() != "M_THREEPID_NOT_FOUND"@.len());
}

} // verus!
