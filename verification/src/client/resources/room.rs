//! Creating, joining and leaving rooms, and managing their members.

use vstd::prelude::*;
use vstd::string::*;

verus! {

/// A preset of room settings.
#[derive(Debug, Clone, Copy, PartialEq, Eq, Structural)]
pub enum RoomPreset {
    PrivateChat,
    PublicChat,
    TrustedPrivateChat,
}

/// Settings of the room's creation event.
#[derive(Debug)]
pub struct RoomCreationContent {
    /// Sent as `m.federate`.
    pub federate: bool,
}

impl Default for RoomCreationContent {
    fn default() -> (r: Self)
        ensures
            !r.federate,
    {
        RoomCreationContent {
            federate: false,
        }
    }
}

/// Whether a room is listed in the directory.
#[derive(Debug, Clone, Copy, PartialEq, Eq, Structural)]
pub enum RoomVisibility {
    Public,
    Private,
}

impl Default for RoomVisibility {
    fn default() -> (r: Self)
        ensures
            r == RoomVisibility::Private,
    {
        RoomVisibility::Private
    }
}

/// The settings of a room to create.
#[derive(Debug)]
pub struct CreateRoomBody {
    /// State events to set, by their JSON text.
    pub initial_state: Vec<String>,
    pub creation_content: Option<RoomCreationContent>,
    /// Users to invite, by user ID.
    pub invite: Vec<String>,
    pub is_direct: bool,
    pub name: Option<String>,
    /// Power levels to set, by their JSON text.
    pub power_override: Option<String>,
    pub preset: Option<RoomPreset>,
    pub room_alias_name: Option<String>,
    pub topic: Option<String>,
    pub visibility: Option<RoomVisibility>,
}

impl Default for CreateRoomBody {
    fn default() -> (r: Self)
        ensures
            r.initial_state@.len() == 0,
            r.creation_content is None,
            r.invite@.len() == 0,
            !r.is_direct,
            r.name is None,
            r.power_override is None,
            r.preset is None,
            r.room_alias_name is None,
            r.topic is None,
            r.visibility is None,
    {
        CreateRoomBody {
            initial_state: Vec::new(),
            creation_content: None,
            invite: Vec::new(),
            is_direct: false,
            name: None,
            power_override: None,
            preset: None,
            room_alias_name: None,
            topic: None,
            visibility: None,
        }
    }
}

/// Why a room is joined.
#[derive(Debug)]
pub struct JoinRoomBody {
    pub reason: Option<String>,
}

/// Why a room is forgotten.
#[derive(Debug)]
pub struct ForgetRoomBody {
    pub reason: Option<String>,
}

/// Why a room is left.
#[derive(Debug)]
pub struct LeaveRoomBody {
    pub reason: Option<String>,
    pub user_id: String,
}

/// Who is kicked or banned, and why.
#[derive(Debug)]
pub struct RoomKickOrBanBody {
    pub reason: Option<String>,
    pub user_id: String,
}

/// The ID of a created room.
#[derive(Debug)]
pub struct CreateRoomResponse {
    pub room_id: String,
}

/// The ID of a joined room.
#[derive(Debug)]
pub struct JoinRoomResponse {
    pub room_id: String,
}

/// An error object of the room API.
#[derive(Debug)]
pub struct RoomApiError {
    pub errcode: String,
    pub error: String,
}

/// Handlers of the room API.
#[derive(Debug)]
pub struct Room;

impl Room {
    /// The path that creates a room.
    pub fn create_path() -> (r: String)
        ensures
            r@ == "/_matrix/client/v3/createRoom"@,
    {
        "/_matrix/client/v3/createRoom".to_owned()
    }

    /// The path that joins a room by ID or alias.
    pub fn join_path(alias_or_id: &str) -> (r: String)
        ensures
            r@ == "/_matrix/client/v3/join/"@ + alias_or_id@,
    {
        let mut p = "/_matrix/client/v3/join/".to_owned();
        p.append(alias_or_id);
        p
    }

    /// The path that forgets a room.
    pub fn forget_path(room_id: &str) -> (r: String)
        ensures
            r@ == "/_matrix/client/v3/rooms/"@ + room_id@ + "/forget"@,
    {
        let mut p = "/_matrix/client/v3/rooms/".to_owned();
        p.append(room_id);
        p.append("/forget");
        p
    }

    /// The path that leaves a room.
    pub fn leave_path(room_id: &str) -> (r: String)
        ensures
            r@ == "/_matrix/client/v3/rooms/"@ + room_id@ + "/leave"@,
    {
        let mut p = "/_matrix/client/v3/rooms/".to_owned();
        p.append(room_id);
        p.append("/leave");
        p
    }

    /// The path that kicks a user from a room.
    pub fn kick_path(room_id: &str) -> (r: String)
        ensures
            r@ == "/_matrix/client/v3/rooms/"@ + room_id@ + "/kick"@,
    {
        let mut p = "/_matrix/client/v3/rooms/".to_owned();
        p.append(room_id);
        p.append("/kick");
        p
    }

    /// The path that bans a user from a room.
    pub fn ban_path(room_id: &str) -> (r: String)
        ensures
            r@ == "/_matrix/client/v3/rooms/"@ + room_id@ + "/ban"@,
    {
        let mut p = "/_matrix/client/v3/rooms/".to_owned();
        p.append(room_id);
        p.append("/ban");
        p
    }

    /// The path that unbans a user from a room.
    pub fn unban_path(room_id: &str) -> (r: String)
        ensures
            r@ == "/_matrix/client/v3/rooms/"@ + room_id@ + "/unban"@,
    {
        let mut p = "/_matrix/client/v3/rooms/".to_owned();
        p.append(room_id);
        p.append("/unban");
        p
    }

}

} // verus!
