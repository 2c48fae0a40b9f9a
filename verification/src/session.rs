//! One client's session as a state machine: what each message from the
//! client asks the server to do. The caller owns the transport, the rooms
//! and the clock, and carries out what the session asks for.

use vstd::prelude::*;
use crate::constants::ROOM_MAX_PLAYERS_HARD_CAP;
use crate::encode::{encode_pong, low_byte_of};
use crate::frames::pong_frame;
use crate::game::WeaponId;
use crate::room::{PlayerId, PlayerInput, RoomConfig, RoomId};
use crate::roundtrip::wire_i8;
use crate::types::{ClientMsg, ClientMsgView};
use crate::wire::i8_of_bits;

verus! {

/// The room that a client joins where it names none.
pub open spec fn default_room_id() -> Seq<char> {
    "room-1"@
}

/// The map of a room where the client names none.
pub open spec fn default_map_name() -> Seq<char> {
    "dm2"@
}

/// What a session asks its caller to do.
#[derive(Debug, PartialEq)]
pub enum SessionAction {
    /// Nothing.
    Idle,
    /// Find or create the room that `config` names, on the map `config.map_id`,
    /// and join it under `username`.
    JoinRoom { config: RoomConfig, username: String },
    /// Hand the input to the room that the player is in.
    ForwardInput { room: RoomId, seq: u64, input: PlayerInput },
    /// Send the frame to the client.
    Send { frame: Vec<u8> },
}

/// A client's session: who it is, what it calls itself, and where it plays.
#[derive(Debug, PartialEq)]
pub struct Session {
    pub player_id: PlayerId,
    pub username: String,
    pub current_room: Option<RoomId>,
}

/// The model of a [`Session`].
pub ghost struct SessionView {
    pub player_id: u64,
    pub username: Seq<char>,
    pub current_room: Option<Seq<char>>,
}

impl View for Session {
    type V = SessionView;

    open spec fn view(&self) -> SessionView {
        SessionView {
            player_id: self.player_id.0,
            username: self.username@,
            current_room: match self.current_room {
                Some(id) => Some(id@),
                None => None,
            },
        }
    }
}

/// The characters of an optional string, or `default` where there is none.
pub open spec fn chars_or(s: Option<Seq<char>>, default: Seq<char>) -> Seq<char> {
    match s {
        Some(c) => c,
        None => default,
    }
}

/// What a player asks for in an input message: its keys and its aim as they
/// are, the weapon that it switches to where the message names one of the
/// nine, and the scroll as the signed byte that the wire carries.
pub open spec fn input_of(
    key_up: bool,
    key_down: bool,
    key_left: bool,
    key_right: bool,
    mouse_down: bool,
    weapon_switch: i32,
    weapon_scroll: i32,
    aim_angle: u32,
    facing_left: bool,
) -> PlayerInput {
    PlayerInput {
        key_up,
        key_down,
        key_left,
        key_right,
        mouse_down,
        weapon_switch: WeaponId::spec_from_i32(weapon_switch),
        weapon_scroll: wire_i8(weapon_scroll),
        aim_angle,
        facing_left,
    }
}

/// Whether `config` is the configuration of a room that a client joins by
/// name: eight players at most, deathmatch, sixty ticks a second.
pub open spec fn is_join_config(config: RoomConfig, room: Seq<char>, map: Seq<char>) -> bool {
    &&& config.name@ == room
    &&& config.max_players == ROOM_MAX_PLAYERS_HARD_CAP
    &&& config.map_id@ == map
    &&& config.mode@ == "deathmatch"@
    &&& config.tick_rate == 60
    &&& config.protocol_version@ == "1"@
    &&& config.region is None
}

/// What a message does to a session, and what the session asks for. A hello
/// names the player, unless it is empty or the player is in a room. A
/// join-room asks to join the room it names, or the default room, on the
/// map it names, or the default map. An input is handed to the player's
/// room, if it is in one. A ping is answered with a pong.
pub open spec fn message_done(
    before: SessionView,
    msg: ClientMsgView,
    server_time_ms: u64,
    after: SessionView,
    action: SessionAction,
) -> bool {
    match msg {
        ClientMsgView::Hello { username } => {
            &&& action is Idle
            &&& after == if before.current_room is None && username.len() > 0 {
                SessionView { username, ..before }
            } else {
                before
            }
        },
        ClientMsgView::JoinRoom { room_id, map } => {
            &&& after == before
            &&& action matches SessionAction::JoinRoom { config, username }
            &&& username@ == before.username
            &&& is_join_config(
                config,
                chars_or(room_id, default_room_id()),
                chars_or(map, default_map_name()),
            )
        },
        ClientMsgView::Input {
            seq,
            key_up,
            key_down,
            key_left,
            key_right,
            mouse_down,
            weapon_switch,
            weapon_scroll,
            aim_angle,
            facing_left,
        } => {
            &&& after == before
            &&& match before.current_room {
                None => action is Idle,
                Some(room_id) => {
                    &&& action matches SessionAction::ForwardInput { room, seq: s, input }
                    &&& room@ == room_id
                    &&& s == seq
                    &&& input == input_of(
                        key_up,
                        key_down,
                        key_left,
                        key_right,
                        mouse_down,
                        weapon_switch,
                        weapon_scroll,
                        aim_angle,
                        facing_left,
                    )
                },
            }
        },
        ClientMsgView::Ping { client_time_ms } => {
            &&& after == before
            &&& action matches SessionAction::Send { frame }
            &&& frame@ == pong_frame(client_time_ms, server_time_ms)
        },
    }
}

impl Session {
    /// A session that is in no room yet.
    pub fn new(player_id: PlayerId, username: String) -> (session: Self)
        ensures
            session@ == (SessionView {
                player_id: player_id.0,
                username: username@,
                current_room: None,
            }),
    {
        Session { player_id, username, current_room: None }
    }

    /// Takes a message from the client: see [`message_done`].
    pub fn handle_client_msg(&mut self, msg: ClientMsg, server_time_ms: u64) -> (action:
        SessionAction)
        ensures
            message_done(old(self)@, msg@, server_time_ms, final(self)@, action),
    {
        match msg {
            ClientMsg::Hello { username } => {
                if self.current_room.is_none() && !username.as_str().is_empty() {
                    self.username = username;
                }
                SessionAction::Idle
            },
            ClientMsg::JoinRoom { room_id, map } => {
                let name: String = match room_id {
                    Some(r) => r,
                    None => "room-1".to_owned(),
                };
                let map_id: String = match map {
                    Some(m) => m,
                    None => "dm2".to_owned(),
                };
                SessionAction::JoinRoom {
                    config: RoomConfig {
                        name,
                        max_players: ROOM_MAX_PLAYERS_HARD_CAP,
                        map_id,
                        mode: "deathmatch".to_owned(),
                        tick_rate: 60,
                        protocol_version: "1".to_owned(),
                        region: None,
                    },
                    username: self.username.clone(),
                }
            },
            ClientMsg::Input {
                seq,
                key_up,
                key_down,
                key_left,
                key_right,
                mouse_down,
                weapon_switch,
                weapon_scroll,
                aim_angle,
                facing_left,
            } => match &self.current_room {
                None => SessionAction::Idle,
                Some(room) => SessionAction::ForwardInput {
                    room: room.duplicate(),
                    seq,
                    input: PlayerInput {
                        key_up,
                        key_down,
                        key_left,
                        key_right,
                        mouse_down,
                        weapon_switch: WeaponId::from_i32(weapon_switch),
                        weapon_scroll: i8_of_bits(low_byte_of(weapon_scroll)),
                        aim_angle,
                        facing_left,
                    },
                },
            },
            ClientMsg::Ping { client_time_ms } => SessionAction::Send {
                frame: encode_pong(client_time_ms, server_time_ms),
            },
        }
    }

    /// Notes that the player is in `room` from now on.
    pub fn joined(&mut self, room: RoomId)
        ensures
            final(self)@ == (SessionView { current_room: Some(room@), ..old(self)@ }),
    {
        self.current_room = Some(room);
    }

    /// Ends the session and hands back the room that the player is to
    /// leave, if it is in one. The room is handed back once: the session is
    /// in no room afterwards.
    pub fn close(&mut self) -> (room: Option<RoomId>)
        ensures
            final(self)@ == (SessionView { current_room: None, ..old(self)@ }),
            match room {
                Some(id) => old(self)@.current_room == Some(id@),
                None => old(self)@.current_room is None,
            },
    {
        let mut room: Option<RoomId> = None;
        std::mem::swap(&mut self.current_room, &mut room);
        room
    }
}

} // verus!
