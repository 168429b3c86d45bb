use matrix::client::account::password::Request as PasswordRequest;
use matrix::client::uiaa::{Auth, AuthData, AuthFlow, AuthType, Dummy, Password, UserIdentifier};

#[test]
fn auth_flow_keeps_stages() {
    let flow = AuthFlow::new(vec![AuthType::Password, AuthType::Dummy]);
    assert_eq!(flow.stages, vec![AuthType::Password, AuthType::Dummy]);
}

#[test]
fn password_uses_localpart() {
    let p = Password::new("@cheeky_monkey:matrix.org", "secret".to_owned());
    assert_eq!(p.identifier, UserIdentifier::User { user: "cheeky_monkey".to_owned() });
    assert_eq!(p.password, "secret");
    let p = Password::new("@a:b:8448", "x".to_owned());
    assert_eq!(p.identifier, UserIdentifier::User { user: "a".to_owned() });
}

#[test]
fn auth_kind_follows_data() {
    let a = Auth::new(AuthData::Dummy(Dummy::new()), Some("sess".to_owned()));
    assert_eq!(a.kind, AuthType::Dummy);
    assert_eq!(a.session, Some("sess".to_owned()));
    let a = Auth::new(AuthData::Password(Password::new("@u:s", "p".to_owned())), None);
    assert_eq!(a.kind, AuthType::Password);
    assert_eq!(a.data.kind(), AuthType::Password);
}

#[test]
fn password_change_request() {
    let r = PasswordRequest::new("new".to_owned());
    assert_eq!(r.auth.kind, AuthType::Dummy);
    assert!(!r.logout_devices);
    let r = r.with_password("@me:example.org", "old".to_owned());
    assert_eq!(r.auth.kind, AuthType::Password);
    assert_eq!(r.new_password, "new");
    match r.auth.data {
        AuthData::Password(p) => {
            assert_eq!(p.identifier, UserIdentifier::User { user: "me".to_owned() });
            assert_eq!(p.password, "old");
        }
        other => panic!("unexpected {:?}", other),
    }
}
