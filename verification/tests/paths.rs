use matrix::admin::resources::room::RoomService;
use matrix::admin::resources::user::UserService;
use matrix::client::resources::events::EventsService;
use matrix::client::resources::mxc::MxcService;
use matrix::client::resources::room::Room;
use matrix::filter::FilterService;

#[test]
fn admin_paths() {
    assert_eq!(RoomService::get_one_path("!r:x"), "/_synapse/admin/v1/rooms/!r:x");
    assert_eq!(
        RoomService::get_event_context_path("!r:x", "$e"),
        "/_synapse/admin/v1/rooms/!r:x/context/$e"
    );
    assert_eq!(RoomService::get_all_path(), "/_synapse/admin/v1/rooms");
    assert_eq!(UserService::user_path("@u:x"), "/_synapse/admin/v2/users/@u:x");
    assert_eq!(UserService::login_as_user_path("@u:x"), "/_synapse/admin/v1/users/@u:x/login");
}

#[test]
fn relations_paths() {
    assert_eq!(
        EventsService::relations_path("!r", "$e", None, Some("m.room.message")),
        "/_matrix/client/v3/rooms/!r/relations/$e"
    );
    assert_eq!(
        EventsService::relations_path("!r", "$e", Some(None), None),
        "/_matrix/client/v3/rooms/!r/relations/$e/m.in_reply_to"
    );
    assert_eq!(
        EventsService::relations_path("!r", "$e", Some(Some("m.thread")), Some("m.room.message")),
        "/_matrix/client/v3/rooms/!r/relations/$e/m.thread/m.room.message"
    );
}

#[test]
fn state_and_send_paths() {
    assert_eq!(
        EventsService::state_event_path("!r", "m.room.name", None),
        "/_matrix/client/v3/rooms/!r/state/m.room.name"
    );
    assert_eq!(
        EventsService::state_event_path("!r", "m.room.member", Some("@u:x")),
        "/_matrix/client/v3/rooms/!r/state/m.room.member/@u:x"
    );
    assert_eq!(
        EventsService::send_message_path("!r", "m.room.message", "t1"),
        "/_matrix/client/v3/rooms/!r/send/m.room.message/t1"
    );
    assert_eq!(EventsService::redaction_path("!r", "$e", "t2"), "/_matrix/client/v3/rooms/!r/redact/$e/t2");
}

#[test]
fn media_paths() {
    assert_eq!(MxcService::download_path("example.org", "abc", None), "/_matrix/media/v3/download/example.org/abc");
    assert_eq!(
        MxcService::download_path("example.org", "abc", Some("cat.png")),
        "/_matrix/media/v3/download/example.org/abc/cat.png"
    );
}

#[test]
fn room_and_filter_paths() {
    assert_eq!(Room::join_path("#room:x"), "/_matrix/client/v3/join/#room:x");
    assert_eq!(Room::kick_path("!r"), "/_matrix/client/v3/rooms/!r/kick");
    assert_eq!(FilterService::get_path("@u:x", "7"), "/_matrix/client/v3/user/@u:x/filter/7");
}
