//! Reading and sending the events of rooms.

use vstd::prelude::*;
use vstd::string::*;

use crate::admin::resources::room::Direction;

verus! {

/// Handlers of the event API.
#[derive(Debug)]
pub struct EventsService;

/// The query of a room's messages.
#[derive(Debug)]
pub struct GetMessagesQuery {
    pub from: Option<String>,
    pub to: Option<String>,
    pub limit: Option<u64>,
    pub dir: Direction,
    /// A filter, by its JSON text; empty for none.
    pub filter: String,
}

impl Default for GetMessagesQuery {
    fn default() -> (r: Self)
        ensures
            r.from is None,
            r.to is None,
            r.limit is None,
            r.dir == Direction::Forward,
            r.filter@.len() == 0,
    {
        GetMessagesQuery {
            from: None,
            to: None,
            limit: None,
            dir: Direction::Forward,
            filter: String::new(),
        }
    }
}

/// The query of the events related to an event.
#[derive(Debug)]
pub struct GetRelationsQuery {
    pub from: Option<String>,
    pub to: Option<String>,
    pub limit: Option<u64>,
    pub dir: Direction,
}

impl Default for GetRelationsQuery {
    fn default() -> (r: Self)
        ensures
            r.from is None,
            r.to is None,
            r.limit is None,
            r.dir == Direction::Forward,
    {
        GetRelationsQuery {
            from: None,
            to: None,
            limit: None,
            dir: Direction::Forward,
        }
    }
}

/// A page of a room's messages; events by their JSON text.
#[derive(Debug)]
pub struct GetMessagesResponse {
    pub chunk: Vec<String>,
    pub start: String,
    pub end: String,
    pub state: Option<Vec<String>>,
}

/// The state events of a room, by their JSON text.
#[derive(Debug)]
pub struct GetStateResponse(pub Vec<String>);

/// A page of related events, by their JSON text.
#[derive(Debug)]
pub struct GetRelationsResponse {
    pub chunk: Vec<String>,
    pub prev_batch: Option<String>,
    pub next_batch: Option<String>,
}

/// Why an event is redacted; empty for no reason.
#[derive(Debug)]
pub struct SendRedactionBody {
    pub reason: String,
}

impl Default for SendRedactionBody {
    fn default() -> (r: Self)
        ensures
            r.reason@.len() == 0,
    {
        SendRedactionBody {
            reason: String::new(),
        }
    }
}

/// The ID of a sent message event.
#[derive(Debug)]
pub struct SendMessageResponse {
    pub event_id: String,
}

/// The ID of a sent state event.
#[derive(Debug)]
pub struct SendStateResponse {
    pub event_id: String,
}

/// The ID of a redaction event.
#[derive(Debug)]
pub struct SendRedactionResponse {
    pub event_id: String,
}

/// The path of a state event of a room: its type, then its state key when
/// one is given.
pub open spec fn state_event_path_spec(
    room_id: Seq<char>,
    event_type: Seq<char>,
    state_key: Option<Seq<char>>,
) -> Seq<char> {
    "/_matrix/client/v3/rooms/"@ + room_id + "/state/"@ + event_type + match state_key {
        Some(k) => "/"@ + k,
        None => Seq::empty(),
    }
}

/// The path of the events related to an event: with a relation type, the
/// type follows (`m.in_reply_to` when the type is left open), and then the
/// event type when one is given; without a relation type, no event type is
/// added.
pub open spec fn relations_path_spec(
    room_id: Seq<char>,
    event_id: Seq<char>,
    rel_type: Option<Option<Seq<char>>>,
    event_type: Option<Seq<char>>,
) -> Seq<char> {
    "/_matrix/client/v3/rooms/"@ + room_id + "/relations/"@ + event_id + match rel_type {
        None => Seq::empty(),
        Some(rt) => "/"@ + match rt {
            Some(t) => t,
            None => "m.in_reply_to"@,
        } + match event_type {
            Some(et) => "/"@ + et,
            None => Seq::empty(),
        },
    }
}

/// The view of an optional text.
pub open spec fn opt_str(o: Option<&str>) -> Option<Seq<char>> {
    match o {
        Some(s) => Some(s@),
        None => None,
    }
}

impl EventsService {
    /// The path of one event of a room.
    pub fn event_path(room_id: &str, event_id: &str) -> (r: String)
        ensures
            r@ == "/_matrix/client/v3/rooms/"@ + room_id@ + "/event/"@ + event_id@,
    {
        let mut p = "/_matrix/client/v3/rooms/".to_owned();
        p.append(room_id);
        p.append("/event/");
        p.append(event_id);
        p
    }

    /// The path of the messages of a room.
    pub fn messages_path(room_id: &str) -> (r: String)
        ensures
            r@ == "/_matrix/client/v3/rooms/"@ + room_id@ + "/messages"@,
    {
        let mut p = "/_matrix/client/v3/rooms/".to_owned();
        p.append(room_id);
        p.append("/messages");
        p
    }

    /// The path of the state of a room.
    pub fn state_path(room_id: &str) -> (r: String)
        ensures
            r@ == "/_matrix/client/v3/rooms/"@ + room_id@ + "/state"@,
    {
        let mut p = "/_matrix/client/v3/rooms/".to_owned();
        p.append(room_id);
        p.append("/state");
        p
    }

    /// The path that sends a message event of the type `event_type` under the transaction ID `txn_id`.
    pub fn send_message_path(room_id: &str, event_type: &str, txn_id: &str) -> (r: String)
        ensures
            r@ == "/_matrix/client/v3/rooms/"@ + room_id@ + "/send/"@ + event_type@ + "/"@ + txn_id@,
    {
        let mut p = "/_matrix/client/v3/rooms/".to_owned();
        p.append(room_id);
        p.append("/send/");
        p.append(event_type);
        p.append("/");
        p.append(txn_id);
        p
    }

    /// The path that redacts an event under the transaction ID `txn_id`.
    pub fn redaction_path(room_id: &str, event_id: &str, txn_id: &str) -> (r: String)
        ensures
            r@ == "/_matrix/client/v3/rooms/"@ + room_id@ + "/redact/"@ + event_id@ + "/"@ + txn_id@,
    {
        let mut p = "/_matrix/client/v3/rooms/".to_owned();
        p.append(room_id);
        p.append("/redact/");
        p.append(event_id);
        p.append("/");
        p.append(txn_id);
        p
    }


    /// The path of a state event, to read its content or to send it.
    pub fn state_event_path(room_id: &str, event_type: &str, state_key: Option<&str>) -> (r: String)
        ensures
            r@ == state_event_path_spec(room_id@, event_type@, opt_str(state_key)),
    {
        let mut p = "/_matrix/client/v3/rooms/".to_owned();
        p.append(room_id);
        p.append("/state/");
        p.append(event_type);
        if let Some(k) = state_key {
            p.append("/");
            p.append(k);
        }
        p
    }

    /// The path of the events related to an event.
    pub fn relations_path(
        room_id: &str,
        event_id: &str,
        rel_type: Option<Option<&str>>,
        event_type: Option<&str>,
    ) -> (r: String)
        ensures
            r@ == relations_path_spec(
                room_id@,
                event_id@,
                match rel_type {
                    Some(rt) => Some(opt_str(rt)),
                    None => None,
                },
                opt_str(event_type),
            ),
    {
        let mut p = "/_matrix/client/v3/rooms/".to_owned();
        p.append(room_id);
        p.append("/relations/");
        p.append(event_id);
        if let Some(rt) = rel_type {
            p.append("/");
            match rt {
                Some(t) => p.append(t),
                None => p.append("m.in_reply_to"),
            }
            if let Some(et) = event_type {
                p.append("/");
                p.append(et);
            }
        }
        p
    }
}

/// The relations path is the event's `relations` path; a relation type,
/// when given, follows it (`m.in_reply_to` when the type is left open), and
/// an event type follows that whenever a relation type is given, open or
/// not; without a relation type the event type is not sent.
pub proof fn lemma_relations_path_parts(
    room_id: Seq<char>,
    event_id: Seq<char>,
    rel: Seq<char>,
    event_type: Seq<char>,
)
    ensures
        relations_path_spec(room_id, event_id, None, None) == "/_matrix/client/v3/rooms/"@ + room_id
            + "/relations/"@ + event_id,
        relations_path_spec(room_id, event_id, None, Some(event_type)) == relations_path_spec(
            room_id,
            event_id,
            None,
            None,
        ),
        relations_path_spec(room_id, event_id, Some(Some(rel)), None) == relations_path_spec(
            room_id,
            event_id,
            None,
            None,
        ) + "/"@ + rel,
        relations_path_spec(room_id, event_id, Some(None), None) == relations_path_spec(
            room_id,
            event_id,
            None,
            None,
        ) + "/"@ + "m.in_reply_to"@,
        relations_path_spec(room_id, event_id, Some(Some(rel)), Some(event_type))
            == relations_path_spec(room_id, event_id, Some(Some(rel)), None) + "/"@ + event_type,
        relations_path_spec(room_id, event_id, Some(None), Some(event_type)) == relations_path_spec(
            room_id,
            event_id,
            Some(None),
            None,
        ) + "/"@ + event_type,
{
    let base = "/_matrix/client/v3/rooms/"@ + room_id + "/relations/"@ + event_id;
    assert(base + Seq::<char>::empty() =~= base);
    assert(base + ("/"@ + rel + Seq::<char>::empty()) =~= base + "/"@ + rel);
    assert(base + ("/"@ + "m.in_reply_to"@ + Seq::<char>::empty()) =~= base + "/"@
        + "m.in_reply_to"@);
    assert(base + ("/"@ + rel + ("/"@ + event_type)) =~= base + "/"@ + rel + "/"@ + event_type);
    assert(base + ("/"@ + "m.in_reply_to"@ + ("/"@ + event_type)) =~= base + "/"@
        + "m.in_reply_to"@ + "/"@ + event_type);
}

/// The path of a state event is the room's `state` path with the event type;
/// a state key, when given, follows after one more `/`.
pub proof fn lemma_state_event_path_parts(room_id: Seq<char>, event_type: Seq<char>, state_key: Seq<char>)
    ensures
        state_event_path_spec(room_id, event_type, None) == "/_matrix/client/v3/rooms/"@ + room_id
            + "/state/"@ + event_type,
        state_event_path_spec(room_id, event_type, Some(state_key)) == state_event_path_spec(
            room_id,
            event_type,
            None,
        ) + "/"@ + state_key,
{
    let base = "/_matrix/client/v3/rooms/"@ + room_id + "/state/"@ + event_type;
    assert(base + Seq::<char>::empty() =~= base);
    assert(base + ("/"@ + state_key) =~= base + "/"@ + state_key);
}

} // verus!
