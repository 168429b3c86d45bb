use matrix::admin::resources::room::{Direction, ListRoomQuery, MessagesQuery, OrderBy};
use matrix::client::resources::thirdparty::ThirdPartyHandle;
use matrix::client::room::{CreateRoomBody, RoomVisibility};
use matrix::filter::EventFormat;

#[test]
fn room_list_query_defaults_to_names_forward() {
    let q = ListRoomQuery::default();
    assert_eq!(q.from, None);
    assert_eq!(q.limit, None);
    assert_eq!(q.order_by, OrderBy::Name);
    assert_eq!(q.direction, Direction::Forward);
    assert!(q.search_term.is_empty());

    let m = MessagesQuery::default();
    assert_eq!(m.direction, Direction::Forward);
    assert!(m.from.is_empty() && m.to.is_empty());
    assert!(m.filter.is_none());
}

#[test]
fn other_defaults() {
    assert_eq!(RoomVisibility::default(), RoomVisibility::Private);
    assert_eq!(EventFormat::default(), EventFormat::Client);
    let b = CreateRoomBody::default();
    assert!(b.initial_state.is_empty() && b.invite.is_empty());
    assert!(!b.is_direct);
    assert!(b.visibility.is_none());
}

#[test]
fn client_secret_is_sixty_four_letters_or_digits() {
    let body = ThirdPartyHandle::request_email_token_body("a@b.c".to_owned(), None);
    assert_eq!(body.client_secret.chars().count(), 64);
    assert!(body.client_secret.chars().all(|c| c.is_ascii_alphanumeric()));
    let other = ThirdPartyHandle::request_email_token_body("a@b.c".to_owned(), None);
    assert_eq!(other.send_attempt, 1);
}
