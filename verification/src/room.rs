//! The vocabulary of rooms: ids, status, configuration, and what a room
//! tells of itself.

use vstd::prelude::*;
use crate::game::WeaponId;

verus! {

/// The id of a player; the server gives each session its own.
#[derive(Clone, Copy, Debug, PartialEq, Eq, Hash, Structural)]
pub struct PlayerId(pub u64);

/// The id of a room: an opaque string, unique among the rooms of a server.
#[derive(Clone, Debug, PartialEq, Eq, Hash)]
pub struct RoomId(pub String);

impl View for RoomId {
    type V = Seq<char>;

    open spec fn view(&self) -> Seq<char> {
        self.0@
    }
}

impl RoomId {
    pub fn as_str(&self) -> (s: &str)
        ensures
            s@ == self@,
    {
        self.0.as_str()
    }

    /// A second copy of the id.
    pub fn duplicate(&self) -> (id: RoomId)
        ensures
            id@ == self@,
    {
        RoomId(self.0.clone())
    }
}

impl From<String> for RoomId {
    fn from(value: String) -> (id: Self) {
        RoomId(value)
    }
}

impl vstd::std_specs::convert::FromSpecImpl<String> for RoomId {
    open spec fn obeys_from_spec() -> bool {
        true
    }

    open spec fn from_spec(value: String) -> Self {
        RoomId(value)
    }
}

/// Where a room stands in its life. A room only ever moves forward:
/// created, running, closing, closed.
#[derive(Clone, Copy, Debug, PartialEq, Eq, Structural)]
pub enum RoomStatus {
    Created,
    Running,
    Closing,
    Closed,
}

impl RoomStatus {
    /// How far along its life a room of this status is.
    pub open spec fn phase(self) -> int {
        match self {
            Self::Created => 0,
            Self::Running => 1,
            Self::Closing => 2,
            Self::Closed => 3,
        }
    }

    /// The name of the status.
    pub open spec fn name(self) -> Seq<char> {
        match self {
            Self::Created => "created"@,
            Self::Running => "running"@,
            Self::Closing => "closing"@,
            Self::Closed => "closed"@,
        }
    }

    /// The place of the status in a listing: running rooms first.
    pub open spec fn spec_rank(self) -> u8 {
        match self {
            Self::Running => 0,
            Self::Created => 1,
            Self::Closing => 2,
            Self::Closed => 3,
        }
    }

    pub fn as_str(self) -> (s: &'static str)
        ensures
            s@ == self.name(),
    {
        match self {
            Self::Created => "created",
            Self::Running => "running",
            Self::Closing => "closing",
            Self::Closed => "closed",
        }
    }

    /// The place of the status in a listing: running rooms first, then
    /// created, closing and closed ones.
    pub fn rank(self) -> (r: u8)
        ensures
            r == self.spec_rank(),
    {
        match self {
            Self::Running => 0,
            Self::Created => 1,
            Self::Closing => 2,
            Self::Closed => 3,
        }
    }

    /// Whether a room of this status turns players away.
    pub fn is_closing(self) -> (b: bool)
        ensures
            b == (self.phase() >= 2),
    {
        match self {
            Self::Closing | Self::Closed => true,
            _ => false,
        }
    }
}

/// What a room is made with.
#[derive(Clone, Debug, PartialEq)]
pub struct RoomConfig {
    pub name: String,
    pub max_players: usize,
    pub map_id: String,
    pub mode: String,
    pub tick_rate: u64,
    pub protocol_version: String,
    pub region: Option<String>,
}

/// What a room tells of itself in a listing.
#[derive(Clone, Debug, PartialEq)]
pub struct RoomSummary {
    pub room_id: String,
    pub name: String,
    pub current_players: usize,
    pub max_players: usize,
    pub map_id: String,
    pub mode: String,
    pub status: RoomStatus,
    pub created_at_ms: u64,
    pub last_activity_at_ms: u64,
    pub protocol_version: String,
    pub region: Option<String>,
}

/// What a room tells of itself when asked: its summary, its players by id
/// and name, and its tick.
#[derive(Clone, Debug, PartialEq)]
pub struct RoomInfo {
    pub summary: RoomSummary,
    pub players: Vec<(u64, String)>,
    pub tick: u64,
}

/// Why a room turned a player away.
#[derive(Clone, Copy, Debug, PartialEq, Eq, Structural)]
pub enum JoinError {
    RoomFull,
    RoomClosing,
}

impl JoinError {
    /// The reason as the join-rejected frame carries it.
    pub open spec fn spec_reason(self) -> Seq<char> {
        match self {
            Self::RoomFull => "room_full"@,
            Self::RoomClosing => "room_closing"@,
        }
    }

    pub fn reason(self) -> (s: &'static str)
        ensures
            s@ == self.spec_reason(),
    {
        match self {
            Self::RoomFull => "room_full",
            Self::RoomClosing => "room_closing",
        }
    }
}

/// The count of simulated ticks of a room.
#[derive(Clone, Copy, Debug, PartialEq, Eq, Structural)]
pub struct Tick(pub u64);

/// What a client asks of its player for one tick. The aim is the bit
/// pattern of an angle.
#[derive(Clone, Copy, Debug, PartialEq, Eq, Structural)]
pub struct PlayerInput {
    pub key_up: bool,
    pub key_down: bool,
    pub key_left: bool,
    pub key_right: bool,
    pub mouse_down: bool,
    pub weapon_switch: Option<WeaponId>,
    pub weapon_scroll: i8,
    pub aim_angle: u32,
    pub facing_left: bool,
}

impl Default for PlayerInput {
    fn default() -> (input: Self)
        ensures
            input == PlayerInput::idle(),
    {
        PlayerInput {
            key_up: false,
            key_down: false,
            key_left: false,
            key_right: false,
            mouse_down: false,
            weapon_switch: None,
            weapon_scroll: 0,
            aim_angle: 0,
            facing_left: false,
        }
    }
}

impl PlayerInput {
    /// The input of a player who does nothing.
    pub open spec fn idle() -> PlayerInput {
        PlayerInput {
            key_up: false,
            key_down: false,
            key_left: false,
            key_right: false,
            mouse_down: false,
            weapon_switch: None,
            weapon_scroll: 0,
            aim_angle: 0,
            facing_left: false,
        }
    }
}

/// A player as its room knows it: who it is, and what it last asked for.
#[derive(Clone, Debug, PartialEq)]
pub struct PlayerConn {
    pub id: PlayerId,
    pub username: String,
    pub input: PlayerInput,
    pub last_input_seq: u64,
}

/// The model of a [`PlayerConn`].
pub ghost struct PlayerConnView {
    pub id: u64,
    pub username: Seq<char>,
    pub input: PlayerInput,
    pub last_input_seq: u64,
}

impl View for PlayerConn {
    type V = PlayerConnView;

    open spec fn view(&self) -> PlayerConnView {
        PlayerConnView {
            id: self.id.0,
            username: self.username@,
            input: self.input,
            last_input_seq: self.last_input_seq,
        }
    }
}

impl DeepView for PlayerConn {
    type V = PlayerConnView;

    open spec fn deep_view(&self) -> PlayerConnView {
        self@
    }
}

} // verus!
