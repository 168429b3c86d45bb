use matrix::admin::registration_tokens::new as registration_token;
use matrix::admin::rooms::get as get_room;
use matrix::client::account::whoami;
use matrix::client::directory::room as directory_room;
use matrix::client::membership::join;
use matrix::client::register::token::validity;
use matrix::client::rooms::state::create as create_state;
use matrix::client::session::register;
use matrix::endpoint::{AuthScheme, Method};

#[test]
fn endpoint_descriptions() {
    let m = registration_token::metadata();
    assert_eq!(m.method, Method::Post);
    assert!(!m.rate_limited);
    assert_eq!(m.authentication, AuthScheme::AccessToken);
    assert_eq!(m.path, "/_synapse/admin/v1/register/new");

    let m = directory_room::metadata();
    assert_eq!(m.method, Method::Get);
    assert_eq!(m.authentication, AuthScheme::Unauthenticated);
    assert_eq!(m.path, "/_matrix/client/v3/directory/room/{room_alias}");

    let m = validity::metadata();
    assert!(m.rate_limited);
    assert_eq!(m.path, "/_matrix/client/v1/register/m.login.registration_token/validity");

    assert_eq!(whoami::metadata().path, "/_matrix/client/v3/account/whoami");
    assert_eq!(get_room::metadata().path, "/_synapse/admin/v1/rooms/:room_id");
}

#[test]
fn request_constructors() {
    let r = registration_token::Request::new("tok".to_owned(), 3, 1700);
    assert_eq!((r.token.as_str(), r.uses_allowed, r.expiry_time), ("tok", 3, 1700));

    let r = join::Request::new("#room:example.org".to_owned(), Some("hello".to_owned()));
    assert_eq!(r.room_id_or_alias, "#room:example.org");
    assert_eq!(r.reason.as_deref(), Some("hello"));
    assert!(r.server_name.is_empty());

    let r = create_state::Request::new(
        "m.room.topic".to_owned(),
        "!r:example.org".to_owned(),
        None,
        "{\"topic\":\"t\"}".to_owned(),
    );
    assert_eq!(r.state_key, "");
    let r = create_state::Request::new(
        "m.room.member".to_owned(),
        "!r:example.org".to_owned(),
        Some("@u:example.org".to_owned()),
        "{}".to_owned(),
    );
    assert_eq!(r.state_key, "@u:example.org");

    let r = register::Request::new("groot", "imroot", "phone", None);
    assert_eq!((r.username.as_str(), r.password.as_str(), r.device_name.as_str()), ("groot", "imroot", "phone"));
    assert_eq!(r.refresh_token, Some(true));
    assert!(r.auth.is_none());
}
