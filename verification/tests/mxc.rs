use matrix::client::resources::mxc::MxcService;
use matrix::http::{Client, ClientError};

fn client() -> Client {
    Client::new("https://matrix.example.org", "example.org").unwrap()
}

#[test]
fn download_url_of_a_media() {
    let url = MxcService::get_download_url(
        &client(),
        "token".to_owned(),
        "mxc://example.org/abc_12-3",
        "https://media.example.org",
        None,
    );
    assert_eq!(
        url,
        Ok("https://media.example.org/_matrix/media/v3/download/example.org/abc_12-3".to_owned())
    );
}

#[test]
fn download_url_under_another_file_name() {
    let url = MxcService::get_download_url(
        &client(),
        "token".to_owned(),
        "mxc://example.org:8448/abc",
        "https://media.example.org/ignored/path",
        Some("cat.png".to_owned()),
    );
    assert_eq!(
        url,
        Ok("https://media.example.org/_matrix/media/v3/download/example.org:8448/abc/cat.png".to_owned())
    );
}

#[test]
fn download_url_refuses_an_empty_token() {
    let url = MxcService::get_download_url(
        &client(),
        String::new(),
        "mxc://example.org/abc",
        "https://media.example.org",
        None,
    );
    assert_eq!(url, Err(ClientError::EmptyToken));
}

#[test]
fn download_url_refuses_a_base_that_does_not_parse() {
    let url = MxcService::get_download_url(
        &client(),
        "token".to_owned(),
        "mxc://example.org/abc",
        "not a url",
        None,
    );
    assert_eq!(url, Err(ClientError::InvalidUrl));
}

#[test]
fn checked_download_url_refuses_invalid_uris() {
    let c = client();
    let base = "https://media.example.org";
    for uri in ["https://example.org/abc", "mxc://example.org", "mxc://example.org/a.b", "mxc://bad host/abc"] {
        assert_eq!(MxcService::get_download_url_checked(&c, "t".to_owned(), uri, base, None), None);
    }
    let long_server = format!("mxc://{}/abc", "a".repeat(250));
    assert_eq!(MxcService::get_download_url_checked(&c, "t".to_owned(), &long_server, base, None), None);
    let long_media = format!("mxc://example.org/{}", "a".repeat(300));
    assert_eq!(
        MxcService::get_download_url_checked(&c, "t".to_owned(), &long_media, base, None),
        Some(Ok(format!("https://media.example.org/_matrix/media/v3/download/example.org/{}", "a".repeat(300))))
    );
    assert_eq!(
        MxcService::get_download_url_checked(&c, String::new(), "not an mxc uri", base, None),
        Some(Err(ClientError::EmptyToken))
    );
    assert_eq!(
        MxcService::get_download_url_checked(&c, "t".to_owned(), "mxc://example.org/abc", base, None),
        Some(Ok("https://media.example.org/_matrix/media/v3/download/example.org/abc".to_owned()))
    );
}
