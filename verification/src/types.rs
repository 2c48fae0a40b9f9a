//! The messages of the wire protocol and their mathematical models.
//!
//! A field that holds a position, a velocity, an angle or a radius is the bit
//! pattern of a single-precision number.

use vstd::prelude::*;
use crate::constants::WEAPON_COUNT;

verus! {

/// Why a frame could not be decoded.
#[derive(Debug, Clone, Copy, PartialEq, Eq, Structural)]
pub enum DecodeError {
    /// The frame has no bytes.
    Empty,
    /// The first byte is no known message tag.
    UnknownType(u8),
    /// The frame ends before a field does, or a user name is too long.
    OutOfBounds,
    /// A string field is not UTF-8.
    InvalidUtf8,
}

impl From<std::string::FromUtf8Error> for DecodeError {
    fn from(e: std::string::FromUtf8Error) -> (r: Self) {
        DecodeError::InvalidUtf8
    }
}

impl vstd::std_specs::convert::FromSpecImpl<std::string::FromUtf8Error> for DecodeError {
    open spec fn obeys_from_spec() -> bool {
        true
    }

    open spec fn from_spec(e: std::string::FromUtf8Error) -> Self {
        DecodeError::InvalidUtf8
    }
}

/// A message from a client to the server.
#[derive(Debug, Clone, PartialEq)]
pub enum ClientMsg {
    Hello { username: String },
    JoinRoom { room_id: Option<String>, map: Option<String> },
    Input {
        seq: u64,
        key_up: bool,
        key_down: bool,
        key_left: bool,
        key_right: bool,
        mouse_down: bool,
        weapon_switch: i32,
        weapon_scroll: i32,
        aim_angle: u32,
        facing_left: bool,
    },
    Ping { client_time_ms: u64 },
}

/// The model of a [`ClientMsg`]: strings as sequences of characters.
pub ghost enum ClientMsgView {
    Hello { username: Seq<char> },
    JoinRoom { room_id: Option<Seq<char>>, map: Option<Seq<char>> },
    Input {
        seq: u64,
        key_up: bool,
        key_down: bool,
        key_left: bool,
        key_right: bool,
        mouse_down: bool,
        weapon_switch: i32,
        weapon_scroll: i32,
        aim_angle: u32,
        facing_left: bool,
    },
    Ping { client_time_ms: u64 },
}

impl View for ClientMsg {
    type V = ClientMsgView;

    open spec fn view(&self) -> ClientMsgView {
        match *self {
            ClientMsg::Hello { username } => ClientMsgView::Hello { username: username@ },
            ClientMsg::JoinRoom { room_id, map } => ClientMsgView::JoinRoom {
                room_id: room_id.deep_view(),
                map: map.deep_view(),
            },
            ClientMsg::Input {
                seq,
                key_up,
                key_down,
                key_left,
                key_right,
                mouse_down,
                weapon_switch,
                weapon_scroll,
                aim_angle,
                facing_left,
            } => ClientMsgView::Input {
                seq,
                key_up,
                key_down,
                key_left,
                key_right,
                mouse_down,
                weapon_switch,
                weapon_scroll,
                aim_angle,
                facing_left,
            },
            ClientMsg::Ping { client_time_ms } => ClientMsgView::Ping { client_time_ms },
        }
    }
}

/// What a snapshot says of one player.
#[derive(Debug, Clone, Copy, PartialEq)]
pub struct PlayerSnapshot {
    pub id: u64,
    pub x: u32,
    pub y: u32,
    pub vx: u32,
    pub vy: u32,
    pub aim_angle: u32,
    pub facing_left: bool,
    pub crouch: bool,
    pub dead: bool,
    pub health: i32,
    pub armor: i32,
    pub current_weapon: i32,
    pub fire_cooldown: i32,
    pub weapons: [bool; WEAPON_COUNT],
    pub ammo: [i32; WEAPON_COUNT],
    pub last_input_seq: u64,
    pub key_left: bool,
    pub key_right: bool,
    pub key_up: bool,
    pub key_down: bool,
}

/// The model of a [`PlayerSnapshot`]: arrays as sequences.
pub ghost struct PlayerSnapshotView {
    pub id: u64,
    pub x: u32,
    pub y: u32,
    pub vx: u32,
    pub vy: u32,
    pub aim_angle: u32,
    pub facing_left: bool,
    pub crouch: bool,
    pub dead: bool,
    pub health: i32,
    pub armor: i32,
    pub current_weapon: i32,
    pub fire_cooldown: i32,
    pub weapons: Seq<bool>,
    pub ammo: Seq<i32>,
    pub last_input_seq: u64,
    pub key_left: bool,
    pub key_right: bool,
    pub key_up: bool,
    pub key_down: bool,
}

impl View for PlayerSnapshot {
    type V = PlayerSnapshotView;

    open spec fn view(&self) -> PlayerSnapshotView {
        PlayerSnapshotView {
            id: self.id,
            x: self.x,
            y: self.y,
            vx: self.vx,
            vy: self.vy,
            aim_angle: self.aim_angle,
            facing_left: self.facing_left,
            crouch: self.crouch,
            dead: self.dead,
            health: self.health,
            armor: self.armor,
            current_weapon: self.current_weapon,
            fire_cooldown: self.fire_cooldown,
            weapons: self.weapons@,
            ammo: self.ammo@,
            last_input_seq: self.last_input_seq,
            key_left: self.key_left,
            key_right: self.key_right,
            key_up: self.key_up,
            key_down: self.key_down,
        }
    }
}

impl DeepView for PlayerSnapshot {
    type V = PlayerSnapshotView;

    open spec fn deep_view(&self) -> PlayerSnapshotView {
        self@
    }
}

/// An item as a snapshot carries it.
#[derive(Clone, Copy, Debug, PartialEq, Eq, Structural)]
pub struct ItemSnapshot {
    pub active: bool,
    pub respawn_timer: i16,
}

/// An item as a decoded snapshot shows it.
#[derive(Clone, Copy, Debug, PartialEq, Eq, Structural)]
pub struct ItemState {
    pub active: bool,
    pub respawn_timer: i16,
}

/// A projectile as a snapshot carries it.
#[derive(Clone, Copy, Debug, PartialEq, Eq, Structural)]
pub struct ProjectileSnapshot {
    pub id: u64,
    pub x: u32,
    pub y: u32,
    pub velocity_x: u32,
    pub velocity_y: u32,
    pub owner_id: i64,
    pub kind: u8,
}

/// A projectile as a decoded snapshot shows it, its kind by name.
#[derive(Debug, Clone, PartialEq)]
pub struct ProjectileStateJs {
    pub id: u64,
    pub x: u32,
    pub y: u32,
    pub velocity_x: u32,
    pub velocity_y: u32,
    pub owner_id: i64,
    pub kind: String,
}

/// The model of a [`ProjectileStateJs`].
pub ghost struct ProjectileStateJsView {
    pub id: u64,
    pub x: u32,
    pub y: u32,
    pub velocity_x: u32,
    pub velocity_y: u32,
    pub owner_id: i64,
    pub kind: Seq<char>,
}

impl View for ProjectileStateJs {
    type V = ProjectileStateJsView;

    open spec fn view(&self) -> ProjectileStateJsView {
        ProjectileStateJsView {
            id: self.id,
            x: self.x,
            y: self.y,
            velocity_x: self.velocity_x,
            velocity_y: self.velocity_y,
            owner_id: self.owner_id,
            kind: self.kind@,
        }
    }
}

impl DeepView for ProjectileStateJs {
    type V = ProjectileStateJsView;

    open spec fn deep_view(&self) -> ProjectileStateJsView {
        self@
    }
}

/// Something that happened during a tick, as the server records it.
#[derive(Debug, Clone, Copy, PartialEq, Eq, Structural)]
pub enum EffectEvent {
    WeaponFired { player_id: u64, weapon_id: i32 },
    ProjectileSpawn {
        id: u64,
        kind: u8,
        x: u32,
        y: u32,
        velocity_x: u32,
        velocity_y: u32,
        owner_id: u64,
    },
    Rail { start_x: u32, start_y: u32, end_x: u32, end_y: u32 },
    Shaft { start_x: u32, start_y: u32, end_x: u32, end_y: u32 },
    BulletImpact { x: u32, y: u32, radius: u32 },
    Gauntlet { x: u32, y: u32 },
    Explosion { x: u32, y: u32, kind: u8 },
    Damage { attacker_id: u64, target_id: u64, amount: i32, killed: bool },
    ProjectileRemove { id: u64, x: u32, y: u32, kind: u8 },
}

/// An event as a decoded snapshot shows it, projectile kinds by name.
#[derive(Debug, Clone, PartialEq)]
pub enum EffectEventJs {
    WeaponFired { player_id: u64, weapon_id: i32 },
    ProjectileSpawn {
        id: u64,
        kind: String,
        x: u32,
        y: u32,
        velocity_x: u32,
        velocity_y: u32,
        owner_id: u64,
    },
    Rail { start_x: u32, start_y: u32, end_x: u32, end_y: u32 },
    Shaft { start_x: u32, start_y: u32, end_x: u32, end_y: u32 },
    BulletImpact { x: u32, y: u32, radius: u32 },
    Gauntlet { x: u32, y: u32 },
    Explosion { x: u32, y: u32, kind: String },
    Damage { attacker_id: u64, target_id: u64, amount: i32, killed: bool },
    ProjectileRemove { id: u64, x: u32, y: u32, kind: String },
}

/// The model of an [`EffectEventJs`].
pub ghost enum EffectEventJsView {
    WeaponFired { player_id: u64, weapon_id: i32 },
    ProjectileSpawn {
        id: u64,
        kind: Seq<char>,
        x: u32,
        y: u32,
        velocity_x: u32,
        velocity_y: u32,
        owner_id: u64,
    },
    Rail { start_x: u32, start_y: u32, end_x: u32, end_y: u32 },
    Shaft { start_x: u32, start_y: u32, end_x: u32, end_y: u32 },
    BulletImpact { x: u32, y: u32, radius: u32 },
    Gauntlet { x: u32, y: u32 },
    Explosion { x: u32, y: u32, kind: Seq<char> },
    Damage { attacker_id: u64, target_id: u64, amount: i32, killed: bool },
    ProjectileRemove { id: u64, x: u32, y: u32, kind: Seq<char> },
}

impl View for EffectEventJs {
    type V = EffectEventJsView;

    open spec fn view(&self) -> EffectEventJsView {
        match *self {
            EffectEventJs::WeaponFired { player_id, weapon_id } => EffectEventJsView::WeaponFired {
                player_id,
                weapon_id,
            },
            EffectEventJs::ProjectileSpawn { id, kind, x, y, velocity_x, velocity_y, owner_id } => {
                EffectEventJsView::ProjectileSpawn {
                    id,
                    kind: kind@,
                    x,
                    y,
                    velocity_x,
                    velocity_y,
                    owner_id,
                }
            },
            EffectEventJs::Rail { start_x, start_y, end_x, end_y } => EffectEventJsView::Rail {
                start_x,
                start_y,
                end_x,
                end_y,
            },
            EffectEventJs::Shaft { start_x, start_y, end_x, end_y } => EffectEventJsView::Shaft {
                start_x,
                start_y,
                end_x,
                end_y,
            },
            EffectEventJs::BulletImpact { x, y, radius } => EffectEventJsView::BulletImpact {
                x,
                y,
                radius,
            },
            EffectEventJs::Gauntlet { x, y } => EffectEventJsView::Gauntlet { x, y },
            EffectEventJs::Explosion { x, y, kind } => EffectEventJsView::Explosion {
                x,
                y,
                kind: kind@,
            },
            EffectEventJs::Damage { attacker_id, target_id, amount, killed } => {
                EffectEventJsView::Damage { attacker_id, target_id, amount, killed }
            },
            EffectEventJs::ProjectileRemove { id, x, y, kind } => {
                EffectEventJsView::ProjectileRemove { id, x, y, kind: kind@ }
            },
        }
    }
}

impl DeepView for EffectEventJs {
    type V = EffectEventJsView;

    open spec fn deep_view(&self) -> EffectEventJsView {
        self@
    }
}

/// A player as a room-state or player-joined frame names it.
#[derive(Debug, Clone, PartialEq)]
pub struct PlayerInfo {
    pub id: u64,
    pub username: String,
    pub model: Option<String>,
    pub skin: Option<String>,
    pub state: Option<PlayerSnapshot>,
}

/// The model of a [`PlayerInfo`].
pub ghost struct PlayerInfoView {
    pub id: u64,
    pub username: Seq<char>,
    pub model: Option<Seq<char>>,
    pub skin: Option<Seq<char>>,
    pub state: Option<PlayerSnapshotView>,
}

impl View for PlayerInfo {
    type V = PlayerInfoView;

    open spec fn view(&self) -> PlayerInfoView {
        PlayerInfoView {
            id: self.id,
            username: self.username@,
            model: self.model.deep_view(),
            skin: self.skin.deep_view(),
            state: match self.state {
                Some(s) => Some(s@),
                None => None,
            },
        }
    }
}

impl DeepView for PlayerInfo {
    type V = PlayerInfoView;

    open spec fn deep_view(&self) -> PlayerInfoView {
        self@
    }
}

/// A message from the server to a client.
#[derive(Debug, Clone, PartialEq)]
pub enum ServerMsg {
    Welcome { player_id: u64 },
    RoomState { room_id: String, map: String, players: Vec<PlayerInfo> },
    PlayerJoined { player: PlayerInfo },
    PlayerLeft { player_id: u64 },
    Snapshot {
        tick: u64,
        server_time_ms: u64,
        players: Vec<PlayerSnapshot>,
        items: Vec<ItemState>,
        projectiles: Vec<ProjectileStateJs>,
        events: Vec<EffectEventJs>,
    },
    Pong { client_time_ms: u64, server_time_ms: u64 },
    JoinRejected { reason: String },
    RoomClosed { reason: String },
    Kicked { reason: String },
}

/// The model of a [`ServerMsg`].
pub ghost enum ServerMsgView {
    Welcome { player_id: u64 },
    RoomState { room_id: Seq<char>, map: Seq<char>, players: Seq<PlayerInfoView> },
    PlayerJoined { player: PlayerInfoView },
    PlayerLeft { player_id: u64 },
    Snapshot {
        tick: u64,
        server_time_ms: u64,
        players: Seq<PlayerSnapshotView>,
        items: Seq<ItemState>,
        projectiles: Seq<ProjectileStateJsView>,
        events: Seq<EffectEventJsView>,
    },
    Pong { client_time_ms: u64, server_time_ms: u64 },
    JoinRejected { reason: Seq<char> },
    RoomClosed { reason: Seq<char> },
    Kicked { reason: Seq<char> },
}

impl View for ServerMsg {
    type V = ServerMsgView;

    open spec fn view(&self) -> ServerMsgView {
        match *self {
            ServerMsg::Welcome { player_id } => ServerMsgView::Welcome { player_id },
            ServerMsg::RoomState { room_id, map, players } => ServerMsgView::RoomState {
                room_id: room_id@,
                map: map@,
                players: players.deep_view(),
            },
            ServerMsg::PlayerJoined { player } => ServerMsgView::PlayerJoined { player: player@ },
            ServerMsg::PlayerLeft { player_id } => ServerMsgView::PlayerLeft { player_id },
            ServerMsg::Snapshot { tick, server_time_ms, players, items, projectiles, events } => {
                ServerMsgView::Snapshot {
                    tick,
                    server_time_ms,
                    players: players.deep_view(),
                    items: items@,
                    projectiles: projectiles.deep_view(),
                    events: events.deep_view(),
                }
            },
            ServerMsg::Pong { client_time_ms, server_time_ms } => ServerMsgView::Pong {
                client_time_ms,
                server_time_ms,
            },
            ServerMsg::JoinRejected { reason } => ServerMsgView::JoinRejected { reason: reason@ },
            ServerMsg::RoomClosed { reason } => ServerMsgView::RoomClosed { reason: reason@ },
            ServerMsg::Kicked { reason } => ServerMsgView::Kicked { reason: reason@ },
        }
    }
}

} // verus!
