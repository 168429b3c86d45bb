//! Shared-secret registration.
//!
//! Users can be created without interaction by an administrator who knows
//! the registration shared secret configured on the homeserver. Each request
//! carries a one-time nonce, fetched beforehand, and a MAC over the request's
//! fields keyed with the shared secret.

use hmac::Mac;
use vstd::prelude::*;
use vstd::string::*;
use vstd::utf8::*;

verus! {

/// A one-time nonce handed out by the homeserver.
#[derive(Debug)]
pub struct Nonce {
    pub nonce: String,
}

/// A registration request.
#[derive(Debug)]
pub struct SharedSecretRegistrationDto {
    pub nonce: String,
    pub username: String,
    pub displayname: Option<String>,
    pub password: String,
    pub admin: bool,
    /// The lowercase hex digest of HMAC-SHA1, keyed with the shared secret,
    /// over the nonce, user, password, `admin` or `notadmin`, and optionally
    /// the user type, separated by NUL bytes.
    pub mac: String,
}

/// The result of a registration.
#[derive(Debug)]
pub struct SharedSecretRegistration {
    pub access_token: String,
    pub user_id: String,
    pub home_server: String,
    pub device_id: String,
}

/// What can go wrong computing the MAC.
#[derive(Debug, PartialEq, Eq)]
pub enum MacError {
    /// The key was refused.
    InvalidKeyLength,
}

/// HMAC-SHA1 of `message` keyed with `key`.
pub uninterp spec fn hmac_sha1(key: Seq<u8>, message: Seq<u8>) -> Seq<u8>;

#[verifier::external_type_specification]
#[verifier::external_body]
pub struct ExInvalidLength(hmac::digest::InvalidLength);

/// Computes HMAC-SHA1 with the `hmac` and `sha1` crates: `new_from_slice`
/// with the key, `update` with the message, `finalize`. `new_from_slice`
/// accepts keys of every length for this MAC (longer keys are hashed first),
/// so the call succeeds; the tag is SHA-1 sized, 20 bytes. The tag's value
/// is named, not stated.
#[verifier::external_body]
fn hmac_sha1_digest(key: &[u8], message: &[u8]) -> (r: Result<Vec<u8>, hmac::digest::InvalidLength>)
    ensures
        r is Ok,
        r matches Ok(tag) ==> tag@ == hmac_sha1(key@, message@),
        r matches Ok(tag) ==> tag@.len() == 20,
{
    let mut mac = <hmac::Hmac<sha1::Sha1> as Mac>::new_from_slice(key)?;
    mac.update(message);
    Ok(mac.finalize().into_bytes().to_vec())
}

/// The character of a hex digit, lowercase.
pub open spec fn hex_digit(d: u8) -> char {
    if d < 10 {
        (48 + d) as char
    } else {
        (87 + d) as char
    }
}

/// The lowercase hex encoding of bytes: two digits per byte, high nibble
/// first.
pub open spec fn hex_lower(bytes: Seq<u8>) -> Seq<char> {
    Seq::new(
        2 * bytes.len(),
        |i: int|
            if i % 2 == 0 {
                hex_digit(bytes[i / 2] / 16)
            } else {
                hex_digit(bytes[i / 2] % 16)
            },
    )
}

/// Encodes bytes as lowercase hex with `hex::encode`, which writes each byte
/// as two digits from `0123456789abcdef`, high nibble first.
#[verifier::external_body]
fn hex_encode(data: &[u8]) -> (r: String)
    ensures
        r@ == hex_lower(data@),
{
    hex::encode(data)
}

/// The bytes the MAC is computed over: nonce, user and password as UTF-8,
/// then `admin` or `notadmin`, then the user type if there is one, with a
/// NUL byte between each two parts.
pub open spec fn mac_message(
    nonce: Seq<char>,
    user: Seq<char>,
    password: Seq<char>,
    admin: bool,
    user_type: Option<Seq<char>>,
) -> Seq<u8> {
    encode_utf8(nonce) + seq![0u8] + encode_utf8(user) + seq![0u8] + encode_utf8(password) + seq![
        0u8,
    ] + (if admin {
        encode_utf8("admin"@)
    } else {
        encode_utf8("notadmin"@)
    }) + match user_type {
        Some(t) => seq![0u8] + encode_utf8(t),
        None => Seq::empty(),
    }
}

/// Appends bytes to a buffer.
fn append_bytes(out: &mut Vec<u8>, bytes: &[u8])
    ensures
        final(out)@ == old(out)@ + bytes@,
{
    let mut i: usize = 0;
    while i < bytes.len()
        invariant
            i <= bytes@.len(),
            out@ == old(out)@ + bytes@.take(i as int),
        decreases bytes@.len() - i,
    {
        out.push(bytes[i]);
        i = i + 1;
        assert(out@ =~= old(out)@ + bytes@.take(i as int));
    }
    assert(bytes@.take(bytes@.len() as int) =~= bytes@);
}

impl SharedSecretRegistration {
    /// The path that hands out nonces and registers users.
    pub fn register_path() -> (r: String)
        ensures
            r@ == "/_synapse/admin/v1/register"@,
    {
        "/_synapse/admin/v1/register".to_owned()
    }

    /// The MAC of a registration request: the lowercase hex digest of
    /// HMAC-SHA1 keyed with the shared secret's UTF-8 bytes, over
    /// [`mac_message`].
    pub fn generate_mac(
        shared_secret: &str,
        nonce: &str,
        user: &str,
        password: &str,
        admin: bool,
        user_type: Option<&str>,
    ) -> (r: Result<String, MacError>)
        ensures
            r matches Ok(m) && m@ == hex_lower(
                hmac_sha1(
                    encode_utf8(shared_secret@),
                    mac_message(
                        nonce@,
                        user@,
                        password@,
                        admin,
                        match user_type {
                            Some(t) => Some(t@),
                            None => None,
                        },
                    ),
                ),
            ),
            r matches Ok(m) && m@.len() == 40,
    {
        let mut message: Vec<u8> = Vec::new();
        append_bytes(&mut message, nonce.as_bytes());
        message.push(0u8);
        append_bytes(&mut message, user.as_bytes());
        message.push(0u8);
        append_bytes(&mut message, password.as_bytes());
        message.push(0u8);
        if admin {
            append_bytes(&mut message, "admin".as_bytes());
        } else {
            append_bytes(&mut message, "notadmin".as_bytes());
        }
        if let Some(t) = user_type {
            message.push(0u8);
            append_bytes(&mut message, t.as_bytes());
        }
        let ghost ut = match user_type {
            Some(t) => Some(t@),
            None => None,
        };
        assert(message@ =~= mac_message(nonce@, user@, password@, admin, ut));
        let tag = match hmac_sha1_digest(shared_secret.as_bytes(), message.as_slice()) {
            Ok(tag) => tag,
            Err(_) => {
                return Err(MacError::InvalidKeyLength);
            },
        };
        Ok(hex_encode(tag.as_slice()))
    }
}

/// The MAC message is the nonce, the user, the password and `admin` or
/// `notadmin`, as UTF-8 and joined by NUL bytes; a user type, whenever one
/// is given and whatever the admin flag, follows after one more NUL byte.
pub proof fn lemma_mac_message_parts(
    nonce: Seq<char>,
    user: Seq<char>,
    password: Seq<char>,
    admin: bool,
    user_type: Seq<char>,
)
    ensures
        mac_message(nonce, user, password, admin, Some(user_type)) == mac_message(
            nonce,
            user,
            password,
            admin,
            None,
        ) + seq![0u8] + encode_utf8(user_type),
        mac_message(nonce, user, password, true, None) == encode_utf8(nonce) + seq![0u8]
            + encode_utf8(user) + seq![0u8] + encode_utf8(password) + seq![0u8] + encode_utf8(
            "admin"@,
        ),
        mac_message(nonce, user, password, false, None) == encode_utf8(nonce) + seq![0u8]
            + encode_utf8(user) + seq![0u8] + encode_utf8(password) + seq![0u8] + encode_utf8(
            "notadmin"@,
        ),
{
    let head = encode_utf8(nonce) + seq![0u8] + encode_utf8(user) + seq![0u8] + encode_utf8(
        password,
    ) + seq![0u8];
    let flag = if admin {
        encode_utf8("admin"@)
    } else {
        encode_utf8("notadmin"@)
    };
    assert(head + flag + (seq![0u8] + encode_utf8(user_type)) =~= head + flag + Seq::empty()
        + seq![0u8] + encode_utf8(user_type));
    assert(mac_message(nonce, user, password, true, None) =~= head + encode_utf8("admin"@));
    assert(mac_message(nonce, user, password, false, None) =~= head + encode_utf8("notadmin"@));
}

/// Hex encoding writes each byte as two digits from `0123456789abcdef`,
/// high nibble first, and encodes a concatenation as the concatenation of
/// the encodings.
pub proof fn lemma_hex_lower_parts(a: Seq<u8>, b: Seq<u8>, x: u8)
    ensures
        hex_lower(a + b) == hex_lower(a) + hex_lower(b),
        hex_lower(seq![x]) == seq!["0123456789abcdef"@[(x / 16) as int], "0123456789abcdef"@[(x % 16) as int]],
        hex_lower(Seq::empty()).len() == 0,
{
    reveal_strlit("0123456789abcdef");
    let digits = "0123456789abcdef"@;
    assert forall|d: u8| d < 16 implies hex_digit(d) == #[trigger] digits[d as int] by {
        if d == 0 { } else if d == 1 { } else if d == 2 { } else if d == 3 { } else if d == 4 {
        } else if d == 5 { } else if d == 6 { } else if d == 7 { } else if d == 8 { } else if d
            == 9 { } else if d == 10 { } else if d == 11 { } else if d == 12 { } else if d == 13 {
        } else if d == 14 { } else { }
    }
    assert(hex_digit(x / 16) == digits[(x / 16) as int]);
    assert(hex_digit(x % 16) == digits[(x % 16) as int]);
    assert(hex_lower(seq![x]) =~= seq![digits[(x / 16) as int], digits[(x % 16) as int]]);
    let ab = a + b;
    assert forall|i: int| 0 <= i < 2 * ab.len() implies #[trigger] hex_lower(ab)[i] == (hex_lower(a)
        + hex_lower(b))[i] by {
        if i >= 2 * a.len() {
            let k = i - 2 * a.len();
            assert(i / 2 == k / 2 + a.len());
            assert(i % 2 == k % 2);
            assert(ab[i / 2] == b[k / 2]);
        } else {
            assert(ab[i / 2] == a[i / 2]);
        }
    }
    assert(hex_lower(ab) =~= hex_lower(a) + hex_lower(b));
    assert(hex_lower(Seq::<u8>::empty()) =~= Seq::<char>::empty());
}

} // verus!
