//! The content repository: media URIs, downloads, previews and limits.

use vstd::prelude::*;
use vstd::string::*;

use crate::client::resources::error::MatrixError;
use crate::http::{set_url_path, url_parse, url_set_path, url_size_limit, Client, ClientError};

verus! {

/// The query of a URL preview.
#[derive(Debug)]
pub struct GetPreviewUrlQuery {
    pub url: String,
    /// The time the preview should be for, in RFC 3339 form.
    pub ts: String,
}

/// A media URI created ahead of its upload.
#[derive(Debug)]
pub struct CreateMxcUriResponse {
    pub content_uri: String,
    /// When the URI expires unused, in microseconds since the epoch.
    pub unused_expires_at: Option<i64>,
}

/// The preview of a URL.
#[derive(Debug)]
pub struct GetPreviewUrlResponse {
    pub image_size: Option<u64>,
    pub description: Option<String>,
    pub image: Option<String>,
    pub height: Option<u64>,
    pub width: Option<u64>,
    /// The media type of the image.
    pub kind: Option<String>,
    pub title: Option<String>,
}

/// The limits of the content repository.
#[derive(Debug)]
pub struct GetConfigResponse {
    pub upload_size: Option<u64>,
}

/// How a thumbnail is cut to size.
#[derive(Debug, Clone, Copy, PartialEq, Eq, Structural)]
pub enum ResizeMethod {
    Crop,
    Scale,
}

/// Handlers of the content repository.
#[derive(Debug)]
pub struct MxcService;

/// An error of the content repository.
#[derive(Debug)]
pub struct MxcError {
    pub inner: MatrixError,
    pub retry_after_ms: u64,
}

/// The path that downloads a media item, optionally under another file name.
pub open spec fn download_path_spec(
    server_name: Seq<char>,
    media_id: Seq<char>,
    file_name: Option<Seq<char>>,
) -> Seq<char> {
    "/_matrix/media/v3/download/"@ + server_name + "/"@ + media_id + match file_name {
        Some(f) => "/"@ + f,
        None => Seq::empty(),
    }
}

/// A character that may stand in a media ID: an ASCII letter or digit, `-`
/// or `_`.
pub open spec fn media_id_char(c: char) -> bool {
    ('0' <= c && c <= '9') || ('a' <= c && c <= 'z') || ('A' <= c && c <= 'Z') || c == '-' || c
        == '_'
}

/// Whether ruma takes a text for a server name, as `MxcUri::parts` checks
/// the server name of an MXC URI.
pub uninterp spec fn server_name_valid(server_name: Seq<char>) -> bool;

/// An MXC URI cut in two: what follows `mxc://`, split at its first `/`.
pub open spec fn mxc_split(uri: Seq<char>) -> Option<(Seq<char>, Seq<char>)> {
    if uri.len() >= 6 && uri.take(6) == "mxc://"@ {
        let rest = uri.skip(6);
        match rest.index_of_first('/') {
            Some(i) => Some((rest.take(i), rest.skip(i + 1))),
            None => None,
        }
    } else {
        None
    }
}

/// A media ID made of [`media_id_char`]s.
pub open spec fn media_id_valid(media_id: Seq<char>) -> bool {
    forall|i: int| 0 <= i < media_id.len() ==> media_id_char(#[trigger] media_id[i])
}

/// The server name and media ID of a valid MXC URI.
pub open spec fn mxc_parts(uri: Seq<char>) -> Option<(Seq<char>, Seq<char>)> {
    match mxc_split(uri) {
        Some((server_name, media_id)) => if media_id_valid(media_id) && server_name_valid(
            server_name,
        ) {
            Some((server_name, media_id))
        } else {
            None
        },
        None => None,
    }
}

/// The largest server name length for which `MxcUri::parts` finds the
/// media ID: it keeps the place of the `/` after `mxc://` and the server name
/// in a byte, which wraps at 256.
pub open spec fn mxc_server_name_limit() -> nat {
    250
}

/// Splits an MXC URI into its server name and media ID with
/// `ruma_common::MxcUri::parts`; none when it is not valid. `parts` checks
/// the media ID and the server name (which must then be ASCII) before it
/// stores the place of the `/` in a byte; so a valid URI is kept to server
/// names below [`mxc_server_name_limit`], where that byte neither wraps nor
/// is zero.
#[verifier::external_body]
fn mxc_uri_parts(uri: &str) -> (r: Option<(String, String)>)
    requires
        mxc_split(uri@) matches Some((s, m)) ==> (media_id_valid(m) && server_name_valid(s) ==> s.len()
            < mxc_server_name_limit()),
    ensures
        r is Some <==> (mxc_split(uri@) matches Some((s, m)) && media_id_valid(m)
            && server_name_valid(s)),
        r matches Some((server_name, media_id)) ==> mxc_split(uri@) == Some(
            (server_name@, media_id@),
        ),
{
    let uri: &ruma_common::MxcUri = uri.into();
    match uri.parts() {
        Ok((server_name, media_id)) => Some((server_name.as_str().to_owned(), media_id.to_owned())),
        Err(_) => None,
    }
}

/// The length of the server name of an MXC URI, as [`mxc_split`] cuts it.
fn mxc_server_name_len(uri: &str) -> (r: Option<usize>)
    ensures
        match mxc_split(uri@) {
            Some((s, _)) => r is Some && r->0 == s.len(),
            None => r is None,
        },
{
    proof {
        reveal_strlit("mxc://");
    }
    let n = uri.unicode_len();
    if n < 6 {
        return None;
    }
    if !(uri.get_char(0) == 'm' && uri.get_char(1) == 'x' && uri.get_char(2) == 'c'
        && uri.get_char(3) == ':' && uri.get_char(4) == '/' && uri.get_char(5) == '/') {
        proof {
            if uri@.take(6) == "mxc://"@ {
                assert(uri@.take(6)[0] == 'm' && uri@.take(6)[1] == 'x' && uri@.take(6)[2] == 'c');
                assert(uri@.take(6)[3] == ':' && uri@.take(6)[4] == '/' && uri@.take(6)[5] == '/');
            }
        }
        return None;
    }
    assert(uri@.take(6) =~= "mxc://"@);
    let ghost rest = uri@.skip(6);
    let mut i: usize = 6;
    while i < n
        invariant
            6 <= i <= n,
            n == uri@.len(),
            rest == uri@.skip(6),
            uri@.take(6) == "mxc://"@,
            forall|j: int| 6 <= j < i ==> uri@[j] != '/',
        decreases n - i,
    {
        if uri.get_char(i) == '/' {
            proof {
                rest.index_of_first_ensures('/');
                assert(rest[i - 6] == uri@[i as int]);
                assert(rest.contains('/'));
                let idx = rest.index_of_first('/')->0;
                if idx < i - 6 {
                    assert(rest[idx] == uri@[idx + 6]);
                }
                assert(idx == i - 6);
                assert(rest.take(idx).len() == i - 6);
            }
            return Some(i - 6);
        }
        i = i + 1;
    }
    proof {
        rest.index_of_first_ensures('/');
        if rest.contains('/') {
            let k = choose|k: int| 0 <= k < rest.len() && rest[k] == '/';
            assert(uri@[k + 6] == rest[k]);
        }
    }
    None
}

/// The view of an optional text.
pub open spec fn opt_text(s: Option<String>) -> Option<Seq<char>> {
    match s {
        Some(t) => Some(t@),
        None => None,
    }
}

/// The download URL of the media of a valid MXC URI: refused for an empty
/// access token, then for a base URL that does not parse; otherwise the
/// base URL with the download path as its path.
pub open spec fn download_url_spec(
    access_token: Seq<char>,
    mxc_uri: Seq<char>,
    base_url: Seq<char>,
    file_name: Option<Seq<char>>,
) -> Result<Seq<char>, ClientError> {
    if access_token.len() == 0 {
        Err(ClientError::EmptyToken)
    } else if url_parse(base_url) is None {
        Err(ClientError::InvalidUrl)
    } else {
        let (server_name, media_id) = mxc_parts(mxc_uri)->0;
        Ok(url_set_path(base_url, download_path_spec(server_name, media_id, file_name)))
    }
}

/// The length of an optional text; none counts as empty.
pub open spec fn opt_len(s: Option<Seq<char>>) -> nat {
    match s {
        Some(t) => t.len(),
        None => 0,
    }
}

/// The server name and media ID of an MXC URI are the URI but for
/// `mxc://` and the `/` between them.
proof fn lemma_mxc_parts_len(uri: Seq<char>)
    requires
        mxc_parts(uri) is Some,
    ensures
        mxc_parts(uri) matches Some((s, m)) && s.len() + m.len() + 7 == uri.len(),
{
    let rest = uri.skip(6);
    rest.index_of_first_ensures('/');
}

/// The view of a result that holds a text.
pub open spec fn text_result(r: Result<String, ClientError>) -> Result<Seq<char>, ClientError> {
    match r {
        Ok(s) => Ok(s@),
        Err(e) => Err(e),
    }
}

/// A valid MXC URI whose server name `MxcUri::parts` can split off.
pub open spec fn mxc_splittable(uri: Seq<char>) -> bool {
    mxc_parts(uri) matches Some((s, m)) && s.len() < mxc_server_name_limit()
}

impl MxcService {
    /// The URL that downloads the media of `mxc_uri` from the homeserver at
    /// `base_url`, optionally under another file name. The access token is
    /// set on a copy of `client`, which refuses an empty one; the URI is
    /// split only after that.
    pub fn get_download_url(
        client: &Client,
        access_token: String,
        mxc_uri: &str,
        base_url: &str,
        file_name: Option<String>,
    ) -> (r: Result<String, ClientError>)
        requires
            access_token@.len() != 0 ==> mxc_splittable(mxc_uri@),
            base_url@.len() + mxc_uri@.len() + opt_len(opt_text(file_name)) + 30 < url_size_limit(),
        ensures
            text_result(r) == download_url_spec(access_token@, mxc_uri@, base_url@, opt_text(file_name)),
    {
        let mut tmp = client.clone();
        match tmp.set_token(access_token) {
            Ok(()) => {},
            Err(e) => {
                return Err(e);
            },
        }
        let (server_name, media_id) = match mxc_uri_parts(mxc_uri) {
            Some(parts) => parts,
            None => {
                assert(false);
                return Err(ClientError::InvalidUrl);
            },
        };
        let name = match &file_name {
            Some(f) => Some(f.as_str()),
            None => None,
        };
        let path = Self::download_path(server_name.as_str(), media_id.as_str(), name);
        proof {
            lemma_mxc_parts_len(mxc_uri@);
            reveal_strlit("/_matrix/media/v3/download/");
            reveal_strlit("/");
            assert(path@.len() <= mxc_uri@.len() + opt_len(opt_text(file_name)) + 22);
        }
        match set_url_path(base_url, path.as_str()) {
            Some(url) => Ok(url),
            None => Err(ClientError::InvalidUrl),
        }
    }

    /// [`MxcService::get_download_url`] for any MXC URI: none when a
    /// non-empty token comes with a URI that is not valid, or whose server
    /// name is too long for `MxcUri::parts` to split off.
    pub fn get_download_url_checked(
        client: &Client,
        access_token: String,
        mxc_uri: &str,
        base_url: &str,
        file_name: Option<String>,
    ) -> (r: Option<Result<String, ClientError>>)
        requires
            base_url@.len() + mxc_uri@.len() + opt_len(opt_text(file_name)) + 30 < url_size_limit(),
        ensures
            r is None <==> access_token@.len() != 0 && !mxc_splittable(mxc_uri@),
            r matches Some(x) ==> text_result(x) == download_url_spec(
                access_token@,
                mxc_uri@,
                base_url@,
                opt_text(file_name),
            ),
    {
        if access_token.as_str().is_empty() {
            return Some(Self::get_download_url(client, access_token, mxc_uri, base_url, file_name));
        }
        let len = match mxc_server_name_len(mxc_uri) {
            Some(len) => len,
            None => {
                return None;
            },
        };
        if len >= 250 {
            return None;
        }
        assert(mxc_split(mxc_uri@) matches Some((s, m)) && s.len() < mxc_server_name_limit());
        match mxc_uri_parts(mxc_uri) {
            Some(_) => Some(Self::get_download_url(client, access_token, mxc_uri, base_url, file_name)),
            None => None,
        }
    }

    /// The path that creates a media URI.
    pub fn create_path() -> (r: String)
        ensures
            r@ == "/_matrix/media/v1/create"@,
    {
        "/_matrix/media/v1/create".to_owned()
    }

    /// The path of the content repository's limits.
    pub fn config_path() -> (r: String)
        ensures
            r@ == "/_matrix/media/v3/config"@,
    {
        "/_matrix/media/v3/config".to_owned()
    }

    /// The path of URL previews.
    pub fn preview_path() -> (r: String)
        ensures
            r@ == "/_matrix/media/v3/preview_url"@,
    {
        "/_matrix/media/v3/preview_url".to_owned()
    }

    /// The path that downloads the media `media_id` of `server_name`.
    pub fn download_path(server_name: &str, media_id: &str, file_name: Option<&str>) -> (r: String)
        ensures
            r@ == download_path_spec(
                server_name@,
                media_id@,
                match file_name {
                    Some(f) => Some(f@),
                    None => None,
                },
            ),
    {
        let mut p = "/_matrix/media/v3/download/".to_owned();
        p.append(server_name);
        p.append("/");
        p.append(media_id);
        if let Some(f) = file_name {
            p.append("/");
            p.append(f);
        }
        p
    }
}

/// The download path names the server and then the media ID under
/// `/_matrix/media/v3/download/`; another file name, when given, follows
/// after one more `/`.
pub proof fn lemma_download_path_parts(server_name: Seq<char>, media_id: Seq<char>, file_name: Seq<char>)
    ensures
        download_path_spec(server_name, media_id, None) == "/_matrix/media/v3/download/"@
            + server_name + "/"@ + media_id,
        download_path_spec(server_name, media_id, Some(file_name)) == download_path_spec(
            server_name,
            media_id,
            None,
        ) + "/"@ + file_name,
{
    let base = "/_matrix/media/v3/download/"@ + server_name + "/"@ + media_id;
    assert(base + Seq::<char>::empty() =~= base);
    assert(base + ("/"@ + file_name) =~= base + "/"@ + file_name);
}

/// An empty access token is refused whatever the URI and base URL; with a
/// token, a base URL that does not parse is refused; otherwise the URL is
/// the base URL with the download path of the URI's server name and media ID
/// as its path.
pub proof fn lemma_download_url_outcomes(
    access_token: Seq<char>,
    mxc_uri: Seq<char>,
    base_url: Seq<char>,
    file_name: Option<Seq<char>>,
    server_name: Seq<char>,
    media_id: Seq<char>,
)
    ensures
        access_token.len() == 0 ==> download_url_spec(access_token, mxc_uri, base_url, file_name)
            == Err::<Seq<char>, ClientError>(ClientError::EmptyToken),
        access_token.len() > 0 && url_parse(base_url) is None ==> download_url_spec(
            access_token,
            mxc_uri,
            base_url,
            file_name,
        ) == Err::<Seq<char>, ClientError>(ClientError::InvalidUrl),
        access_token.len() > 0 && url_parse(base_url) is Some && mxc_parts(mxc_uri) == Some(
            (server_name, media_id),
        ) ==> download_url_spec(access_token, mxc_uri, base_url, file_name) == Ok::<
            Seq<char>,
            ClientError,
        >(url_set_path(base_url, download_path_spec(server_name, media_id, file_name))),
{
}

} // verus!
