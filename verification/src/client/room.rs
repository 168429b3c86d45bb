//! Rooms as the room handlers of the client API see them.

use vstd::prelude::*;

verus! {

/// A preset of room settings.
#[derive(Debug, Clone, Copy, PartialEq, Eq, Structural)]
pub enum RoomPreset {
    PrivateChat,
    PublicChat,
    TrustedPrivateChat,
}

/// Settings of the room's creation event.
#[derive(Debug)]
pub struct RoomCreationContent {
    /// Sent as `m.federate`.
    pub federate: bool,
}

impl Default for RoomCreationContent {
    fn default() -> (r: Self)
        ensures
            !r.federate,
    {
        RoomCreationContent {
            federate: false,
        }
    }
}

/// Whether a room is listed in the directory.
#[derive(Debug, Clone, Copy, PartialEq, Eq, Structural)]
pub enum RoomVisibility {
    Public,
    Private,
}

impl Default for RoomVisibility {
    fn default() -> (r: Self)
        ensures
            r == RoomVisibility::Private,
    {
        RoomVisibility::Private
    }
}

/// The settings of a room to create; empty texts and lists are not sent.
#[derive(Debug)]
pub struct CreateRoomBody {
    /// State events to set, by their JSON text.
    pub initial_state: Vec<String>,
    pub creation_content: Option<RoomCreationContent>,
    /// Users to invite, by user ID.
    pub invite: Vec<String>,
    pub is_direct: bool,
    pub name: String,
    /// Power levels to set, by their JSON text.
    pub power_override: Option<String>,
    pub preset: Option<RoomPreset>,
    pub room_alias_name: String,
    pub topic: String,
    pub visibility: Option<RoomVisibility>,
}

impl Default for CreateRoomBody {
    fn default() -> (r: Self)
        ensures
            r.initial_state@.len() == 0,
            r.creation_content is None,
            r.invite@.len() == 0,
            !r.is_direct,
            r.name@.len() == 0,
            r.power_override is None,
            r.preset is None,
            r.room_alias_name@.len() == 0,
            r.topic@.len() == 0,
            r.visibility is None,
    {
        CreateRoomBody {
            initial_state: Vec::new(),
            creation_content: None,
            invite: Vec::new(),
            is_direct: false,
            name: String::new(),
            power_override: None,
            preset: None,
            room_alias_name: String::new(),
            topic: String::new(),
            visibility: None,
        }
    }
}

/// Why a room is joined; empty for no reason.
#[derive(Debug)]
pub struct JoinRoomBody {
    pub reason: String,
}

impl Default for JoinRoomBody {
    fn default() -> (r: Self)
        ensures
            r.reason@.len() == 0,
    {
        JoinRoomBody {
            reason: String::new(),
        }
    }
}

/// Why a room is forgotten; empty for no reason.
#[derive(Debug)]
pub struct ForgetRoomBody {
    pub reason: String,
}

impl Default for ForgetRoomBody {
    fn default() -> (r: Self)
        ensures
            r.reason@.len() == 0,
    {
        ForgetRoomBody {
            reason: String::new(),
        }
    }
}

/// Why a room is left; empty for no reason.
#[derive(Debug)]
pub struct LeaveRoomBody {
    pub reason: String,
}

impl Default for LeaveRoomBody {
    fn default() -> (r: Self)
        ensures
            r.reason@.len() == 0,
    {
        LeaveRoomBody {
            reason: String::new(),
        }
    }
}

/// Who is kicked or banned, and why; empty for no reason.
#[derive(Debug)]
pub struct RoomKickOrBanBody {
    pub reason: String,
    pub user_id: String,
}

/// The ID of a created room.
#[derive(Debug)]
pub struct CreateRoomResponse {
    pub room_id: String,
}

/// The ID of a joined room.
#[derive(Debug)]
pub struct JoinRoomResponse {
    pub room_id: String,
}

/// The answer to leaving a room: empty.
#[derive(Debug)]
pub struct LeaveRoomResponse {}

/// The answer to forgetting a room: empty.
#[derive(Debug)]
pub struct ForgetRoomResponse {}

/// The answer to kicking or banning: empty.
#[derive(Debug)]
pub struct RoomKickOrBanResponse {}

/// Handlers of the room API; the paths are those of
/// [`crate::client::resources::room::Room`].
#[derive(Debug)]
pub struct RoomService;

} // verus!
