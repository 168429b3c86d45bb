use matrix::client::resources::error::MatrixError;
use matrix::client::resources::login::{Identifier, LoginHandle, LoginType};
use matrix::client::resources::thirdparty::ThirdPartyHandle;
use matrix::filter::{Filter, RoomEventFilter};

fn err(code: &str) -> MatrixError {
    MatrixError { error_code: code.to_owned(), error: "message".to_owned() }
}

#[test]
fn email_token_answers() {
    assert_eq!(ThirdPartyHandle::request_email_token_result(true, &err("")), Ok(Some(true)));
    assert_eq!(ThirdPartyHandle::request_email_token_result(false, &err("M_THREEPID_IN_USE")), Ok(Some(false)));
    assert_eq!(ThirdPartyHandle::request_email_token_result(false, &err("M_THREEPID_NOT_FOUND")), Ok(Some(true)));
    assert_eq!(ThirdPartyHandle::request_email_token_result(false, &err("M_THREEPID_DENIED")), Ok(None));
    assert_eq!(
        ThirdPartyHandle::request_email_token_result(false, &err("M_UNKNOWN")),
        Err("message".to_owned())
    );
}

#[test]
fn email_token_body_has_random_secret() {
    let a = ThirdPartyHandle::request_email_token_body("a@b.c".to_owned(), None);
    let b = ThirdPartyHandle::request_email_token_body("a@b.c".to_owned(), None);
    assert_eq!(a.email, "a@b.c");
    assert_eq!(a.send_attempt, 1);
    assert_eq!(a.client_secret.len(), 64);
    assert!(a.client_secret.chars().all(|c| c.is_ascii_alphanumeric()));
    assert_ne!(a.client_secret, b.client_secret);
    assert!(a.id_server.access_token.is_empty() && a.id_server.server_name.is_empty());
}

#[test]
fn password_login_request() {
    let r = LoginHandle::password_login_request("@cheeky_monkey:matrix.org", "ilovebananas".to_owned());
    assert!(matches!(r.kind, LoginType::Password { ref password } if password == "ilovebananas"));
    assert!(matches!(r.identifier, Some(Identifier::User { ref user }) if user == "@cheeky_monkey:matrix.org"));
    assert!(r.device_name.is_empty());
    assert!(r.refresh_token.is_none());
}

#[test]
fn room_events_filter() {
    let f = Filter::room_events(RoomEventFilter { limit: Some(5), ..Default::default() });
    assert!(f.account.is_none() && f.presence.is_none() && f.event_format.is_none());
    let room = f.room.unwrap();
    assert_eq!(room.timeline.unwrap().limit, Some(5));
    assert!(room.state.is_none() && !room.include_leave);
}
