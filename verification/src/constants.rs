//! Protocol tags, limits and gameplay tables.

use vstd::prelude::*;

verus! {

pub const MSG_HELLO: u8 = 0x01;
pub const MSG_JOIN_ROOM: u8 = 0x02;
pub const MSG_INPUT: u8 = 0x03;
pub const MSG_PING: u8 = 0x04;
pub const MSG_WELCOME: u8 = 0x81;
pub const MSG_ROOM_STATE: u8 = 0x82;
pub const MSG_PLAYER_JOINED: u8 = 0x83;
pub const MSG_PLAYER_LEFT: u8 = 0x84;
pub const MSG_SNAPSHOT: u8 = 0x85;
pub const MSG_PONG: u8 = 0x86;
pub const MSG_JOIN_REJECTED: u8 = 0x87;
pub const MSG_ROOM_CLOSED: u8 = 0x88;
pub const MSG_KICKED: u8 = 0x89;

pub const EVENT_WEAPON_FIRED: u8 = 0x01;
pub const EVENT_PROJECTILE_SPAWN: u8 = 0x02;
pub const EVENT_RAIL: u8 = 0x03;
pub const EVENT_SHAFT: u8 = 0x04;
pub const EVENT_BULLET_IMPACT: u8 = 0x05;
pub const EVENT_GAUNTLET: u8 = 0x06;
pub const EVENT_EXPLOSION: u8 = 0x07;
pub const EVENT_DAMAGE: u8 = 0x08;
pub const EVENT_PROJECTILE_REMOVE: u8 = 0x09;

pub const PROJ_ROCKET: u8 = 0;
pub const PROJ_GRENADE: u8 = 1;
pub const PROJ_PLASMA: u8 = 2;
pub const PROJ_BFG: u8 = 3;

pub const MAX_USERNAME_LEN: usize = 32;
pub const WEAPON_COUNT: usize = 9;

/// Bytes of one player record on the wire.
pub const PLAYER_RECORD_LEN: usize = 63;
/// Bytes of one item record on the wire.
pub const ITEM_RECORD_LEN: usize = 3;
/// Bytes of one projectile record on the wire.
pub const PROJECTILE_RECORD_LEN: usize = 33;
/// Bytes of a snapshot frame before its records.
pub const SNAPSHOT_HEADER_LEN: usize = 22;

pub const TICK_MILLIS: u64 = 16;
pub const SNAPSHOT_INTERVAL_TICKS: u64 = 2;
pub const SNAPSHOT_BUFFER_RING: usize = 8;
pub const OUTBOUND_CHANNEL_CAPACITY: usize = 64;
pub const ROOM_COMMAND_CAPACITY: usize = 1024;
pub const ROOM_MAX_PLAYERS_HARD_CAP: usize = 8;

pub const MAX_HEALTH: i32 = 100;
pub const MEGA_HEALTH: i32 = 200;
pub const MAX_ARMOR: i32 = 200;
pub const QUAD_DURATION: i32 = 900;
pub const RESPAWN_TIME: i32 = 180;
pub const SPAWN_PROTECTION: i32 = 120;
pub const SELF_HIT_GRACE: i32 = 8;
pub const GRENADE_HIT_GRACE: i32 = 12;
pub const GRENADE_FUSE: i32 = 100;
pub const SHOTGUN_PELLETS: usize = 11;

} // verus!
