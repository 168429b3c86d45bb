use matrix::admin::client::Client as AdminClient;
use matrix::http::{is_success, Client, ClientError};

#[test]
fn new_client_parses_url() {
    let c = Client::new("https://matrix.example.org", "example.org").unwrap();
    assert_eq!(c.base_url(), "https://matrix.example.org/");
    assert_eq!(c.server_name(), "example.org");
    assert_eq!(c.build_headers(), Ok(None));
    assert!(matches!(Client::new("not a url", "x"), Err(ClientError::InvalidUrl)));
    assert!(AdminClient::new("http://localhost:8008").is_ok());
}

#[test]
fn set_token_refuses_empty_tokens() {
    let mut c = Client::new("https://matrix.example.org", "example.org").unwrap();
    assert_eq!(c.set_token("abc".to_owned()), Ok(()));
    assert_eq!(c.build_headers(), Ok(Some("Bearer abc".to_owned())));
    assert_eq!(c.set_token(String::new()), Err(ClientError::EmptyToken));
    assert_eq!(c.build_headers(), Ok(None));
    c.set_token("x".to_owned()).unwrap();
    c.clear_token();
    assert_eq!(c.build_headers(), Ok(None));
}

#[test]
fn headers_refuse_control_characters() {
    let mut c = AdminClient::new("http://localhost:8008").unwrap();
    c.set_token("bad\ntoken".to_owned()).unwrap();
    assert_eq!(c.build_headers(), Err(ClientError::InvalidHeaderValue));
    c.set_token("tab\tok".to_owned()).unwrap();
    assert_eq!(c.build_headers(), Ok(Some("Bearer tab\tok".to_owned())));
}

#[test]
fn success_statuses() {
    assert!(is_success(200));
    assert!(is_success(299));
    assert!(!is_success(300));
    assert!(!is_success(199));
}

#[test]
fn build_url_replaces_the_path() {
    let c = Client::new("https://example.com/api", "example.com").unwrap();
    assert_eq!(c.build_url("data/report.csv"), "https://example.com/data/report.csv");
    assert_eq!(c.build_url("/api/some comments"), "https://example.com/api/some%20comments");
    let a = AdminClient::new("http://localhost:8008").unwrap();
    assert_eq!(a.build_url("/_synapse/admin/v1/rooms"), "http://localhost:8008/_synapse/admin/v1/rooms");
}

#[test]
fn build_url_with_params_sets_the_query() {
    let a = AdminClient::new("http://localhost:8008").unwrap();
    assert_eq!(
        a.build_url_with_params("/_synapse/admin/v1/rooms", "from=10&limit=5"),
        "http://localhost:8008/_synapse/admin/v1/rooms?from=10&limit=5"
    );
    let c = Client::new("https://example.com", "example.com").unwrap();
    assert_eq!(c.build_url_with_params("/x", ""), "https://example.com/x?");
}

#[test]
fn cloned_client_keeps_its_state() {
    let mut c = Client::new("https://matrix.example.org", "example.org").unwrap();
    c.set_token("abc".to_owned()).unwrap();
    let d = c.clone();
    assert_eq!(d.base_url(), "https://matrix.example.org/");
    assert_eq!(d.server_name(), "example.org");
    assert_eq!(d.build_headers(), Ok(Some("Bearer abc".to_owned())));
}

#[test]
fn token_calls_keep_the_server_name() {
    let mut c = Client::new("https://matrix.example.org", "example.org").unwrap();
    c.set_token("a".to_owned()).unwrap();
    c.clear_token();
    let _ = c.set_token(String::new());
    c.set_token("b".to_owned()).unwrap();
    assert_eq!(c.server_name(), "example.org");
    assert_eq!(c.base_url(), "https://matrix.example.org/");
    assert_eq!(c.build_headers(), Ok(Some("Bearer b".to_owned())));
}
