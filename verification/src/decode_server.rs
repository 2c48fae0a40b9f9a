//! Decoding of the frames that the server sends.

use vstd::prelude::*;

use crate::constants::{
    EVENT_BULLET_IMPACT, EVENT_DAMAGE, EVENT_EXPLOSION, EVENT_GAUNTLET, EVENT_PROJECTILE_REMOVE,
    EVENT_PROJECTILE_SPAWN, EVENT_RAIL, EVENT_SHAFT, EVENT_WEAPON_FIRED, MSG_JOIN_REJECTED,
    MSG_KICKED, MSG_PLAYER_JOINED, MSG_PLAYER_LEFT, MSG_PONG, MSG_ROOM_CLOSED, MSG_ROOM_STATE,
    MSG_SNAPSHOT, MSG_WELCOME, WEAPON_COUNT,
};
use crate::decode::{
    at_i16, at_i64, at_u16, at_u32, at_u64, flag, get_i16, get_i64, get_u16, get_u32, get_u64,
    has_bytes, read_string, spec_read_string,
};
use crate::encode::{kind_name, kind_u8_to_str};
use crate::frames::bit_set;
use crate::types::{
    DecodeError, EffectEventJs, EffectEventJsView, ItemState, PlayerInfo, PlayerInfoView,
    PlayerSnapshot, PlayerSnapshotView, ProjectileStateJs, ProjectileStateJsView, ServerMsg,
    ServerMsgView,
};

verus! {

/// What one step of a run of records gives: the record and the bytes it took.
pub type Step<T> = Result<(Option<T>, int), DecodeError>;

/// What a run of `n` records from `off` on decodes to: the records in
/// order, and where the run ends. Each record starts where the one before
/// it ended; a step that gives no record is passed over; the first error
/// ends the run.
pub open spec fn decode_run<T>(
    b: Seq<u8>,
    off: int,
    n: nat,
    one: spec_fn(Seq<u8>, int) -> Step<T>,
) -> Result<(Seq<T>, int), DecodeError>
    decreases n,
{
    if n == 0 {
        Ok((Seq::empty(), off))
    } else {
        match decode_run(b, off, (n - 1) as nat, one) {
            Err(e) => Err(e),
            Ok((items, at)) => match one(b, at) {
                Err(e) => Err(e),
                Ok((Some(item), used)) => Ok((items.push(item), at + used)),
                Ok((None, used)) => Ok((items, at + used)),
            },
        }
    }
}

/// A run that has failed stays failed however many records are asked of it.
pub proof fn lemma_run_error<T>(
    b: Seq<u8>,
    off: int,
    k: nat,
    n: nat,
    one: spec_fn(Seq<u8>, int) -> Step<T>,
)
    requires
        k <= n,
        decode_run(b, off, k, one) is Err,
    ensures
        decode_run(b, off, n, one) == decode_run(b, off, k, one),
    decreases n,
{
    if k < n {
        lemma_run_error(b, off, k, (n - 1) as nat, one);
    }
}

/// The weapons that a weapon bitset says are owned.
pub open spec fn weapons_of(bits: u16) -> Seq<bool> {
    seq![
        bit_set(bits as int, 1),
        bit_set(bits as int, 2),
        bit_set(bits as int, 4),
        bit_set(bits as int, 8),
        bit_set(bits as int, 16),
        bit_set(bits as int, 32),
        bit_set(bits as int, 64),
        bit_set(bits as int, 128),
        bit_set(bits as int, 256),
    ]
}

/// The nine ammunition counts that start at `off`.
pub open spec fn ammo_at(b: Seq<u8>, off: int) -> Seq<i32> {
    seq![
        at_i16(b, off) as i32,
        at_i16(b, off + 2) as i32,
        at_i16(b, off + 4) as i32,
        at_i16(b, off + 6) as i32,
        at_i16(b, off + 8) as i32,
        at_i16(b, off + 10) as i32,
        at_i16(b, off + 12) as i32,
        at_i16(b, off + 14) as i32,
        at_i16(b, off + 16) as i32,
    ]
}

/// The player record that starts at `off`.
pub open spec fn player_at(b: Seq<u8>, off: int) -> PlayerSnapshotView {
    PlayerSnapshotView {
        id: at_u64(b, off),
        x: at_u32(b, off + 8),
        y: at_u32(b, off + 12),
        vx: at_u32(b, off + 16),
        vy: at_u32(b, off + 20),
        aim_angle: at_u32(b, off + 24),
        facing_left: bit_set(b[off + 62] as int, 1),
        crouch: bit_set(b[off + 62] as int, 2),
        dead: bit_set(b[off + 62] as int, 4),
        health: at_i16(b, off + 28) as i32,
        armor: at_i16(b, off + 30) as i32,
        current_weapon: b[off + 32] as i32,
        fire_cooldown: b[off + 33] as i32,
        weapons: weapons_of(at_u16(b, off + 34)),
        ammo: ammo_at(b, off + 36),
        last_input_seq: at_u64(b, off + 54),
        key_left: bit_set(b[off + 62] as int, 8),
        key_right: bit_set(b[off + 62] as int, 16),
        key_up: bit_set(b[off + 62] as int, 32),
        key_down: bit_set(b[off + 62] as int, 64),
    }
}

/// What the 63 bytes at `off` decode to as a player record.
pub open spec fn spec_decode_player_record(b: Seq<u8>, off: int) -> Result<
    (PlayerSnapshotView, int),
    DecodeError,
> {
    if b.len() < off + 63 {
        Err(DecodeError::OutOfBounds)
    } else {
        Ok((player_at(b, off), 63))
    }
}

/// Whether the bit of `weight` (a power of two) is set in `v`.
fn flag16(v: u16, weight: u16) -> (b: bool)
    requires
        weight > 0,
    ensures
        b == bit_set(v as int, weight as int),
{
    (v / weight) % 2 == 1
}

/// The weapons that a weapon bitset says are owned.
fn decode_weapons(bits: u16) -> (weapons: [bool; WEAPON_COUNT])
    ensures
        weapons@ == weapons_of(bits),
{
    let weapons: [bool; WEAPON_COUNT] = [
        flag16(bits, 1),
        flag16(bits, 2),
        flag16(bits, 4),
        flag16(bits, 8),
        flag16(bits, 16),
        flag16(bits, 32),
        flag16(bits, 64),
        flag16(bits, 128),
        flag16(bits, 256),
    ];
    assert(weapons@ =~= weapons_of(bits));
    weapons
}

/// The nine ammunition counts that start at `offset`.
fn decode_ammo(bytes: &[u8], offset: usize) -> (ammo: [i32; WEAPON_COUNT])
    requires
        offset + 18 <= bytes.len(),
    ensures
        ammo@ == ammo_at(bytes@, offset as int),
{
    let ammo: [i32; WEAPON_COUNT] = [
        get_i16(bytes, offset) as i32,
        get_i16(bytes, offset + 2) as i32,
        get_i16(bytes, offset + 4) as i32,
        get_i16(bytes, offset + 6) as i32,
        get_i16(bytes, offset + 8) as i32,
        get_i16(bytes, offset + 10) as i32,
        get_i16(bytes, offset + 12) as i32,
        get_i16(bytes, offset + 14) as i32,
        get_i16(bytes, offset + 16) as i32,
    ];
    assert(ammo@ =~= ammo_at(bytes@, offset as int));
    ammo
}

/// Decodes the player record at `offset`, and says how many bytes it took.
pub fn decode_player_record(bytes: &[u8], offset: usize) -> (r: Result<
    (PlayerSnapshot, usize),
    DecodeError,
>)
    ensures
        match r {
            Ok((snap, used)) => spec_decode_player_record(bytes@, offset as int) == Ok::<
                (PlayerSnapshotView, int),
                DecodeError,
            >((snap@, used as int)),
            Err(e) => spec_decode_player_record(bytes@, offset as int) == Err::<
                (PlayerSnapshotView, int),
                DecodeError,
            >(e),
        },
{
    if !has_bytes(bytes, offset, 63) {
        return Err(DecodeError::OutOfBounds);
    }
    let flags: u8 = bytes[offset + 62];
    let weapons: [bool; WEAPON_COUNT] = decode_weapons(get_u16(bytes, offset + 34));
    let ammo: [i32; WEAPON_COUNT] = decode_ammo(bytes, offset + 36);
    let snapshot: PlayerSnapshot = PlayerSnapshot {
        id: get_u64(bytes, offset),
        x: get_u32(bytes, offset + 8),
        y: get_u32(bytes, offset + 12),
        vx: get_u32(bytes, offset + 16),
        vy: get_u32(bytes, offset + 20),
        aim_angle: get_u32(bytes, offset + 24),
        facing_left: flag(flags, 0x01),
        crouch: flag(flags, 0x02),
        dead: flag(flags, 0x04),
        health: get_i16(bytes, offset + 28) as i32,
        armor: get_i16(bytes, offset + 30) as i32,
        current_weapon: bytes[offset + 32] as i32,
        fire_cooldown: bytes[offset + 33] as i32,
        weapons,
        ammo,
        last_input_seq: get_u64(bytes, offset + 54),
        key_left: flag(flags, 0x08),
        key_right: flag(flags, 0x10),
        key_up: flag(flags, 0x20),
        key_down: flag(flags, 0x40),
    };
    Ok((snapshot, 63))
}

/// How many bytes the event with tag `tag` takes, its tag included; an
/// unknown tag takes its one byte.
pub open spec fn event_size(tag: u8) -> int {
    if tag == EVENT_WEAPON_FIRED {
        10
    } else if tag == EVENT_PROJECTILE_SPAWN {
        34
    } else if tag == EVENT_RAIL || tag == EVENT_SHAFT {
        17
    } else if tag == EVENT_BULLET_IMPACT {
        13
    } else if tag == EVENT_GAUNTLET {
        9
    } else if tag == EVENT_EXPLOSION {
        10
    } else if tag == EVENT_DAMAGE {
        20
    } else if tag == EVENT_PROJECTILE_REMOVE {
        18
    } else {
        1
    }
}

/// The event that starts at `off`, which is known to be there in full;
/// none for an unknown tag.
pub open spec fn event_at(b: Seq<u8>, off: int) -> Option<EffectEventJsView> {
    let tag = b[off];
    if tag == EVENT_WEAPON_FIRED {
        Some(
            EffectEventJsView::WeaponFired {
                player_id: at_u64(b, off + 1),
                weapon_id: b[off + 9] as i32,
            },
        )
    } else if tag == EVENT_PROJECTILE_SPAWN {
        Some(
            EffectEventJsView::ProjectileSpawn {
                id: at_u64(b, off + 1),
                kind: kind_name(b[off + 9]),
                x: at_u32(b, off + 10),
                y: at_u32(b, off + 14),
                velocity_x: at_u32(b, off + 18),
                velocity_y: at_u32(b, off + 22),
                owner_id: at_u64(b, off + 26),
            },
        )
    } else if tag == EVENT_RAIL {
        Some(
            EffectEventJsView::Rail {
                start_x: at_u32(b, off + 1),
                start_y: at_u32(b, off + 5),
                end_x: at_u32(b, off + 9),
                end_y: at_u32(b, off + 13),
            },
        )
    } else if tag == EVENT_SHAFT {
        Some(
            EffectEventJsView::Shaft {
                start_x: at_u32(b, off + 1),
                start_y: at_u32(b, off + 5),
                end_x: at_u32(b, off + 9),
                end_y: at_u32(b, off + 13),
            },
        )
    } else if tag == EVENT_BULLET_IMPACT {
        Some(
            EffectEventJsView::BulletImpact {
                x: at_u32(b, off + 1),
                y: at_u32(b, off + 5),
                radius: at_u32(b, off + 9),
            },
        )
    } else if tag == EVENT_GAUNTLET {
        Some(EffectEventJsView::Gauntlet { x: at_u32(b, off + 1), y: at_u32(b, off + 5) })
    } else if tag == EVENT_EXPLOSION {
        Some(
            EffectEventJsView::Explosion {
                x: at_u32(b, off + 1),
                y: at_u32(b, off + 5),
                kind: kind_name(b[off + 9]),
            },
        )
    } else if tag == EVENT_DAMAGE {
        Some(
            EffectEventJsView::Damage {
                attacker_id: at_u64(b, off + 1),
                target_id: at_u64(b, off + 9),
                amount: at_i16(b, off + 17) as i32,
                killed: bit_set(b[off + 19] as int, 1),
            },
        )
    } else if tag == EVENT_PROJECTILE_REMOVE {
        Some(
            EffectEventJsView::ProjectileRemove {
                id: at_u64(b, off + 1),
                x: at_u32(b, off + 9),
                y: at_u32(b, off + 13),
                kind: kind_name(b[off + 17]),
            },
        )
    } else {
        None
    }
}

/// What the bytes at `off` decode to as an effect event: the event and the
/// bytes it took. An unknown tag gives no event and takes one byte; an
/// event that the frame ends in is out of bounds.
pub open spec fn spec_decode_event(b: Seq<u8>, off: int) -> Step<EffectEventJsView> {
    if off >= b.len() {
        Err(DecodeError::OutOfBounds)
    } else if b.len() < off + event_size(b[off]) {
        Err(DecodeError::OutOfBounds)
    } else {
        Ok((event_at(b, off), event_size(b[off])))
    }
}

/// An event seen as its model.
pub open spec fn event_option_view(e: Option<EffectEventJs>) -> Option<EffectEventJsView> {
    match e {
        Some(e) => Some(e@),
        None => None,
    }
}

/// Decodes the effect event at `offset`, and says how many bytes it took.
pub fn decode_event(bytes: &[u8], offset: usize) -> (r: Result<
    (Option<EffectEventJs>, usize),
    DecodeError,
>)
    ensures
        match r {
            Ok((event, used)) => spec_decode_event(bytes@, offset as int) == Ok::<
                (Option<EffectEventJsView>, int),
                DecodeError,
            >((event_option_view(event), used as int)),
            Err(e) => spec_decode_event(bytes@, offset as int) == Err::<
                (Option<EffectEventJsView>, int),
                DecodeError,
            >(e),
        },
{
    if offset >= bytes.len() {
        return Err(DecodeError::OutOfBounds);
    }
    let event_type: u8 = bytes[offset];
    if event_type == EVENT_WEAPON_FIRED {
        if !has_bytes(bytes, offset, 10) {
            return Err(DecodeError::OutOfBounds);
        }
        let player_id: u64 = get_u64(bytes, offset + 1);
        let weapon_id: i32 = bytes[offset + 9] as i32;
        Ok((Some(EffectEventJs::WeaponFired { player_id, weapon_id }), 10))
    } else if event_type == EVENT_PROJECTILE_SPAWN {
        if !has_bytes(bytes, offset, 34) {
            return Err(DecodeError::OutOfBounds);
        }
        let id: u64 = get_u64(bytes, offset + 1);
        let kind: u8 = bytes[offset + 9];
        let x: u32 = get_u32(bytes, offset + 10);
        let y: u32 = get_u32(bytes, offset + 14);
        let velocity_x: u32 = get_u32(bytes, offset + 18);
        let velocity_y: u32 = get_u32(bytes, offset + 22);
        let owner_id: u64 = get_u64(bytes, offset + 26);
        Ok(
            (
                Some(
                    EffectEventJs::ProjectileSpawn {
                        id,
                        kind: kind_u8_to_str(kind).to_owned(),
                        x,
                        y,
                        velocity_x,
                        velocity_y,
                        owner_id,
                    },
                ),
                34,
            ),
        )
    } else if event_type == EVENT_RAIL {
        if !has_bytes(bytes, offset, 17) {
            return Err(DecodeError::OutOfBounds);
        }
        let start_x: u32 = get_u32(bytes, offset + 1);
        let start_y: u32 = get_u32(bytes, offset + 5);
        let end_x: u32 = get_u32(bytes, offset + 9);
        let end_y: u32 = get_u32(bytes, offset + 13);
        Ok((Some(EffectEventJs::Rail { start_x, start_y, end_x, end_y }), 17))
    } else if event_type == EVENT_SHAFT {
        if !has_bytes(bytes, offset, 17) {
            return Err(DecodeError::OutOfBounds);
        }
        let start_x: u32 = get_u32(bytes, offset + 1);
        let start_y: u32 = get_u32(bytes, offset + 5);
        let end_x: u32 = get_u32(bytes, offset + 9);
        let end_y: u32 = get_u32(bytes, offset + 13);
        Ok((Some(EffectEventJs::Shaft { start_x, start_y, end_x, end_y }), 17))
    } else if event_type == EVENT_BULLET_IMPACT {
        if !has_bytes(bytes, offset, 13) {
            return Err(DecodeError::OutOfBounds);
        }
        let x: u32 = get_u32(bytes, offset + 1);
        let y: u32 = get_u32(bytes, offset + 5);
        let radius: u32 = get_u32(bytes, offset + 9);
        Ok((Some(EffectEventJs::BulletImpact { x, y, radius }), 13))
    } else if event_type == EVENT_GAUNTLET {
        if !has_bytes(bytes, offset, 9) {
            return Err(DecodeError::OutOfBounds);
        }
        let x: u32 = get_u32(bytes, offset + 1);
        let y: u32 = get_u32(bytes, offset + 5);
        Ok((Some(EffectEventJs::Gauntlet { x, y }), 9))
    } else if event_type == EVENT_EXPLOSION {
        if !has_bytes(bytes, offset, 10) {
            return Err(DecodeError::OutOfBounds);
        }
        let x: u32 = get_u32(bytes, offset + 1);
        let y: u32 = get_u32(bytes, offset + 5);
        let kind: u8 = bytes[offset + 9];
        Ok((Some(EffectEventJs::Explosion { x, y, kind: kind_u8_to_str(kind).to_owned() }), 10))
    } else if event_type == EVENT_DAMAGE {
        if !has_bytes(bytes, offset, 20) {
            return Err(DecodeError::OutOfBounds);
        }
        let attacker_id: u64 = get_u64(bytes, offset + 1);
        let target_id: u64 = get_u64(bytes, offset + 9);
        let amount: i32 = get_i16(bytes, offset + 17) as i32;
        let flags: u8 = bytes[offset + 19];
        Ok(
            (
                Some(
                    EffectEventJs::Damage {
                        attacker_id,
                        target_id,
                        amount,
                        killed: flag(flags, 0x01),
                    },
                ),
                20,
            ),
        )
    } else if event_type == EVENT_PROJECTILE_REMOVE {
        if !has_bytes(bytes, offset, 18) {
            return Err(DecodeError::OutOfBounds);
        }
        let id: u64 = get_u64(bytes, offset + 1);
        let x: u32 = get_u32(bytes, offset + 9);
        let y: u32 = get_u32(bytes, offset + 13);
        let kind: u8 = bytes[offset + 17];
        Ok(
            (
                Some(
                    EffectEventJs::ProjectileRemove {
                        id,
                        x,
                        y,
                        kind: kind_u8_to_str(kind).to_owned(),
                    },
                ),
                18,
            ),
        )
    } else {
        Ok((None, 1))
    }
}

/// One player of a snapshot.
pub open spec fn player_step() -> spec_fn(Seq<u8>, int) -> Step<PlayerSnapshotView> {
    |b: Seq<u8>, off: int|
        match spec_decode_player_record(b, off) {
            Ok((p, used)) => Ok((Some(p), used)),
            Err(e) => Err(e),
        }
}

/// One item of a snapshot: three bytes.
pub open spec fn item_step() -> spec_fn(Seq<u8>, int) -> Step<ItemState> {
    |b: Seq<u8>, off: int|
        if b.len() < off + 3 {
            Err(DecodeError::OutOfBounds)
        } else {
            Ok(
                (
                    Some(
                        ItemState {
                            active: bit_set(b[off] as int, 1),
                            respawn_timer: at_i16(b, off + 1),
                        },
                    ),
                    3,
                ),
            )
        }
}

/// One projectile of a snapshot: 33 bytes.
pub open spec fn projectile_step() -> spec_fn(Seq<u8>, int) -> Step<ProjectileStateJsView> {
    |b: Seq<u8>, off: int|
        if b.len() < off + 33 {
            Err(DecodeError::OutOfBounds)
        } else {
            Ok(
                (
                    Some(
                        ProjectileStateJsView {
                            id: at_u64(b, off),
                            x: at_u32(b, off + 8),
                            y: at_u32(b, off + 12),
                            velocity_x: at_u32(b, off + 16),
                            velocity_y: at_u32(b, off + 20),
                            owner_id: at_i64(b, off + 24),
                            kind: kind_name(b[off + 32]),
                        },
                    ),
                    33,
                ),
            )
        }
}

/// One event of a snapshot.
pub open spec fn event_step() -> spec_fn(Seq<u8>, int) -> Step<EffectEventJsView> {
    |b: Seq<u8>, off: int| spec_decode_event(b, off)
}

/// One player of a room-state frame: the name with its length, then the record.
pub open spec fn roster_step() -> spec_fn(Seq<u8>, int) -> Step<PlayerInfoView> {
    |b: Seq<u8>, off: int|
        if off >= b.len() {
            Err(DecodeError::OutOfBounds)
        } else {
            match spec_read_string(b, off + 1, b[off] as int) {
                Err(e) => Err(e),
                Ok(username) => match spec_decode_player_record(b, off + 1 + b[off]) {
                    Err(e) => Err(e),
                    Ok((p, used)) => Ok(
                        (
                            Some(
                                PlayerInfoView {
                                    id: p.id,
                                    username,
                                    model: None,
                                    skin: None,
                                    state: Some(p),
                                },
                            ),
                            1 + b[off] + used,
                        ),
                    ),
                },
            }
        }
}

/// What a frame of one tag and one reason string decodes to.
pub open spec fn spec_decode_reason(b: Seq<u8>) -> Result<Seq<char>, DecodeError> {
    if b.len() < 2 {
        Err(DecodeError::OutOfBounds)
    } else {
        spec_read_string(b, 2, b[1] as int)
    }
}

/// What a room-state frame decodes to.
pub open spec fn spec_decode_room_state(b: Seq<u8>) -> Result<ServerMsgView, DecodeError> {
    if b.len() < 4 {
        Err(DecodeError::OutOfBounds)
    } else {
        match spec_read_string(b, 4, b[1] as int) {
            Err(e) => Err(e),
            Ok(room_id) => match spec_read_string(b, 4 + b[1], b[2] as int) {
                Err(e) => Err(e),
                Ok(map) => match decode_run(b, 4 + b[1] + b[2], b[3] as nat, roster_step()) {
                    Err(e) => Err(e),
                    Ok((players, _)) => Ok(ServerMsgView::RoomState { room_id, map, players }),
                },
            },
        }
    }
}

/// What a snapshot frame decodes to: the header of 22 bytes, then as many
/// players, items, projectiles and events as the header counts.
pub open spec fn spec_decode_snapshot(b: Seq<u8>) -> Result<ServerMsgView, DecodeError> {
    if b.len() < 22 {
        Err(DecodeError::OutOfBounds)
    } else {
        match decode_run(b, 22, b[17] as nat, player_step()) {
            Err(e) => Err(e),
            Ok((players, at_items)) => match decode_run(b, at_items, b[18] as nat, item_step()) {
                Err(e) => Err(e),
                Ok((items, at_projectiles)) => match decode_run(
                    b,
                    at_projectiles,
                    at_u16(b, 19) as nat,
                    projectile_step(),
                ) {
                    Err(e) => Err(e),
                    Ok((projectiles, at_events)) => match decode_run(
                        b,
                        at_events,
                        b[21] as nat,
                        event_step(),
                    ) {
                        Err(e) => Err(e),
                        Ok((events, _)) => Ok(
                            ServerMsgView::Snapshot {
                                tick: at_u64(b, 1),
                                server_time_ms: at_u64(b, 9),
                                players,
                                items,
                                projectiles,
                                events,
                            },
                        ),
                    },
                },
            },
        }
    }
}

/// What a frame from the server decodes to, by its first byte.
pub open spec fn spec_decode_server(b: Seq<u8>) -> Result<ServerMsgView, DecodeError> {
    if b.len() == 0 {
        Err(DecodeError::Empty)
    } else if b[0] == MSG_WELCOME {
        if b.len() < 9 {
            Err(DecodeError::OutOfBounds)
        } else {
            Ok(ServerMsgView::Welcome { player_id: at_u64(b, 1) })
        }
    } else if b[0] == MSG_ROOM_STATE {
        spec_decode_room_state(b)
    } else if b[0] == MSG_PLAYER_JOINED {
        if b.len() < 10 {
            Err(DecodeError::OutOfBounds)
        } else {
            match spec_read_string(b, 10, b[9] as int) {
                Err(e) => Err(e),
                Ok(username) => Ok(
                    ServerMsgView::PlayerJoined {
                        player: PlayerInfoView {
                            id: at_u64(b, 1),
                            username,
                            model: None,
                            skin: None,
                            state: None,
                        },
                    },
                ),
            }
        }
    } else if b[0] == MSG_PLAYER_LEFT {
        if b.len() < 9 {
            Err(DecodeError::OutOfBounds)
        } else {
            Ok(ServerMsgView::PlayerLeft { player_id: at_u64(b, 1) })
        }
    } else if b[0] == MSG_SNAPSHOT {
        spec_decode_snapshot(b)
    } else if b[0] == MSG_PONG {
        if b.len() < 17 {
            Err(DecodeError::OutOfBounds)
        } else {
            Ok(ServerMsgView::Pong { client_time_ms: at_u64(b, 1), server_time_ms: at_u64(b, 9) })
        }
    } else if b[0] == MSG_JOIN_REJECTED {
        match spec_decode_reason(b) {
            Ok(reason) => Ok(ServerMsgView::JoinRejected { reason }),
            Err(e) => Err(e),
        }
    } else if b[0] == MSG_ROOM_CLOSED {
        match spec_decode_reason(b) {
            Ok(reason) => Ok(ServerMsgView::RoomClosed { reason }),
            Err(e) => Err(e),
        }
    } else if b[0] == MSG_KICKED {
        match spec_decode_reason(b) {
            Ok(reason) => Ok(ServerMsgView::Kicked { reason }),
            Err(e) => Err(e),
        }
    } else {
        Err(DecodeError::UnknownType(b[0]))
    }
}

/// A decoded server message seen as its model.
pub open spec fn server_result_view(r: Result<ServerMsg, DecodeError>) -> Result<
    ServerMsgView,
    DecodeError,
> {
    match r {
        Ok(m) => Ok(m@),
        Err(e) => Err(e),
    }
}

/// What a run of records came to, with the place where it ended as the
/// decoder counts it.
pub open spec fn run_view<T: DeepView>(r: Result<(Vec<T>, usize), DecodeError>) -> Result<
    (Seq<T::V>, int),
    DecodeError,
> {
    match r {
        Ok((items, at)) => Ok((items.deep_view(), at as int)),
        Err(e) => Err(e),
    }
}

/// Decodes `count` player records from `start` on.
fn decode_players(bytes: &[u8], start: usize, count: usize) -> (r: Result<
    (Vec<PlayerSnapshot>, usize),
    DecodeError,
>)
    requires
        start <= bytes.len(),
    ensures
        run_view(r) == decode_run(bytes@, start as int, count as nat, player_step()),
        r matches Ok((_, at)) ==> at <= bytes.len(),
{
    let mut list: Vec<PlayerSnapshot> = Vec::new();
    let mut offset: usize = start;
    let mut i: usize = 0;
    assert(list.deep_view() =~= Seq::<PlayerSnapshotView>::empty());
    while i < count
        invariant
            i <= count,
            offset <= bytes.len(),
            decode_run(bytes@, start as int, i as nat, player_step()) == Ok::<
                (Seq<PlayerSnapshotView>, int),
                DecodeError,
            >((list.deep_view(), offset as int)),
        decreases count - i,
    {
        let ghost before = list.deep_view();
        match decode_player_record(bytes, offset) {
            Ok((snapshot, used)) => {
                list.push(snapshot);
                offset = offset + used;
                proof {
                    assert(list.deep_view() =~= before.push(snapshot@));
                }
            },
            Err(e) => {
                proof {
                    lemma_run_error(
                        bytes@,
                        start as int,
                        (i + 1) as nat,
                        count as nat,
                        player_step(),
                    );
                }
                return Err(e);
            },
        }
        i = i + 1;
    }
    Ok((list, offset))
}

/// Decodes `count` item records from `start` on.
fn decode_items(bytes: &[u8], start: usize, count: usize) -> (r: Result<
    (Vec<ItemState>, usize),
    DecodeError,
>)
    requires
        start <= bytes.len(),
    ensures
        match r {
            Ok((items, at)) => decode_run(bytes@, start as int, count as nat, item_step())
                == Ok::<(Seq<ItemState>, int), DecodeError>((items@, at as int)) && at
                <= bytes.len(),
            Err(e) => decode_run(bytes@, start as int, count as nat, item_step()) == Err::<
                (Seq<ItemState>, int),
                DecodeError,
            >(e),
        },
{
    let mut list: Vec<ItemState> = Vec::new();
    let mut offset: usize = start;
    let mut i: usize = 0;
    while i < count
        invariant
            i <= count,
            offset <= bytes.len(),
            decode_run(bytes@, start as int, i as nat, item_step()) == Ok::<
                (Seq<ItemState>, int),
                DecodeError,
            >((list@, offset as int)),
        decreases count - i,
    {
        if !has_bytes(bytes, offset, 3) {
            proof {
                lemma_run_error(bytes@, start as int, (i + 1) as nat, count as nat, item_step());
            }
            return Err(DecodeError::OutOfBounds);
        }
        let flags: u8 = bytes[offset];
        let respawn_timer: i16 = get_i16(bytes, offset + 1);
        list.push(ItemState { active: flag(flags, 0x01), respawn_timer });
        offset = offset + 3;
        i = i + 1;
    }
    Ok((list, offset))
}

/// Decodes `count` projectile records from `start` on.
fn decode_projectiles(bytes: &[u8], start: usize, count: usize) -> (r: Result<
    (Vec<ProjectileStateJs>, usize),
    DecodeError,
>)
    requires
        start <= bytes.len(),
    ensures
        run_view(r) == decode_run(bytes@, start as int, count as nat, projectile_step()),
        r matches Ok((_, at)) ==> at <= bytes.len(),
{
    let mut list: Vec<ProjectileStateJs> = Vec::new();
    let mut offset: usize = start;
    let mut i: usize = 0;
    assert(list.deep_view() =~= Seq::<ProjectileStateJsView>::empty());
    while i < count
        invariant
            i <= count,
            offset <= bytes.len(),
            decode_run(bytes@, start as int, i as nat, projectile_step()) == Ok::<
                (Seq<ProjectileStateJsView>, int),
                DecodeError,
            >((list.deep_view(), offset as int)),
        decreases count - i,
    {
        if !has_bytes(bytes, offset, 33) {
            proof {
                lemma_run_error(
                    bytes@,
                    start as int,
                    (i + 1) as nat,
                    count as nat,
                    projectile_step(),
                );
            }
            return Err(DecodeError::OutOfBounds);
        }
        let ghost before = list.deep_view();
        let projectile: ProjectileStateJs = ProjectileStateJs {
            id: get_u64(bytes, offset),
            x: get_u32(bytes, offset + 8),
            y: get_u32(bytes, offset + 12),
            velocity_x: get_u32(bytes, offset + 16),
            velocity_y: get_u32(bytes, offset + 20),
            owner_id: get_i64(bytes, offset + 24),
            kind: kind_u8_to_str(bytes[offset + 32]).to_owned(),
        };
        let ghost shown = projectile@;
        list.push(projectile);
        proof {
            assert(list.deep_view() =~= before.push(shown));
        }
        offset = offset + 33;
        i = i + 1;
    }
    Ok((list, offset))
}

/// Decodes `count` events from `start` on. Events of unknown tags are passed over.
fn decode_events(bytes: &[u8], start: usize, count: usize) -> (r: Result<
    (Vec<EffectEventJs>, usize),
    DecodeError,
>)
    requires
        start <= bytes.len(),
    ensures
        run_view(r) == decode_run(bytes@, start as int, count as nat, event_step()),
        r matches Ok((_, at)) ==> at <= bytes.len(),
{
    let mut list: Vec<EffectEventJs> = Vec::new();
    let mut offset: usize = start;
    let mut i: usize = 0;
    assert(list.deep_view() =~= Seq::<EffectEventJsView>::empty());
    while i < count
        invariant
            i <= count,
            offset <= bytes.len(),
            decode_run(bytes@, start as int, i as nat, event_step()) == Ok::<
                (Seq<EffectEventJsView>, int),
                DecodeError,
            >((list.deep_view(), offset as int)),
        decreases count - i,
    {
        let ghost before = list.deep_view();
        match decode_event(bytes, offset) {
            Ok((event, used)) => {
                offset = offset + used;
                match event {
                    Some(e) => {
                        let ghost shown = e@;
                        list.push(e);
                        proof {
                            assert(list.deep_view() =~= before.push(shown));
                        }
                    },
                    None => {},
                }
            },
            Err(e) => {
                proof {
                    lemma_run_error(
                        bytes@,
                        start as int,
                        (i + 1) as nat,
                        count as nat,
                        event_step(),
                    );
                }
                return Err(e);
            },
        }
        i = i + 1;
    }
    Ok((list, offset))
}

/// Decodes the `count` players of a room-state frame from `start` on.
fn decode_roster(bytes: &[u8], start: usize, count: usize) -> (r: Result<
    (Vec<PlayerInfo>, usize),
    DecodeError,
>)
    requires
        start <= bytes.len(),
    ensures
        run_view(r) == decode_run(bytes@, start as int, count as nat, roster_step()),
        r matches Ok((_, at)) ==> at <= bytes.len(),
{
    let mut list: Vec<PlayerInfo> = Vec::new();
    let mut offset: usize = start;
    let mut i: usize = 0;
    assert(list.deep_view() =~= Seq::<PlayerInfoView>::empty());
    while i < count
        invariant
            i <= count,
            offset <= bytes.len(),
            decode_run(bytes@, start as int, i as nat, roster_step()) == Ok::<
                (Seq<PlayerInfoView>, int),
                DecodeError,
            >((list.deep_view(), offset as int)),
        decreases count - i,
    {
        let ghost before = list.deep_view();
        match decode_roster_entry(bytes, offset) {
            Ok((player, used)) => {
                let ghost shown = player@;
                list.push(player);
                offset = offset + used;
                proof {
                    assert(list.deep_view() =~= before.push(shown));
                }
            },
            Err(e) => {
                proof {
                    lemma_run_error(
                        bytes@,
                        start as int,
                        (i + 1) as nat,
                        count as nat,
                        roster_step(),
                    );
                }
                return Err(e);
            },
        }
        i = i + 1;
    }
    Ok((list, offset))
}

/// Decodes one player of a room-state frame.
fn decode_roster_entry(bytes: &[u8], offset: usize) -> (r: Result<(PlayerInfo, usize), DecodeError>)
    requires
        offset <= bytes.len(),
    ensures
        match r {
            Ok((player, used)) => roster_step()(bytes@, offset as int) == Ok::<
                (Option<PlayerInfoView>, int),
                DecodeError,
            >((Some(player@), used as int)) && offset + used <= bytes.len(),
            Err(e) => roster_step()(bytes@, offset as int) == Err::<
                (Option<PlayerInfoView>, int),
                DecodeError,
            >(e),
        },
{
    if offset >= bytes.len() {
        return Err(DecodeError::OutOfBounds);
    }
    let name_len: usize = bytes[offset] as usize;
    let username: String = match read_string(bytes, offset + 1, name_len) {
        Ok(s) => s,
        Err(e) => {
            return Err(e);
        },
    };
    match decode_player_record(bytes, offset + 1 + name_len) {
        Ok((snapshot, used)) => Ok(
            (
                PlayerInfo {
                    id: snapshot.id,
                    username,
                    model: None,
                    skin: None,
                    state: Some(snapshot),
                },
                1 + name_len + used,
            ),
        ),
        Err(e) => Err(e),
    }
}

/// Decodes a frame of one tag and one reason string.
fn decode_reason(bytes: &[u8]) -> (r: Result<String, DecodeError>)
    ensures
        crate::decode::string_result_view(r) == spec_decode_reason(bytes@),
{
    if bytes.len() < 2 {
        return Err(DecodeError::OutOfBounds);
    }
    read_string(bytes, 2, bytes[1] as usize)
}

fn decode_room_state(bytes: &[u8]) -> (r: Result<ServerMsg, DecodeError>)
    ensures
        server_result_view(r) == spec_decode_room_state(bytes@),
{
    if bytes.len() < 4 {
        return Err(DecodeError::OutOfBounds);
    }
    let room_len: usize = bytes[1] as usize;
    let map_len: usize = bytes[2] as usize;
    let player_count: usize = bytes[3] as usize;
    let room_id: String = match read_string(bytes, 4, room_len) {
        Ok(s) => s,
        Err(e) => {
            return Err(e);
        },
    };
    let map: String = match read_string(bytes, 4 + room_len, map_len) {
        Ok(s) => s,
        Err(e) => {
            return Err(e);
        },
    };
    match decode_roster(bytes, 4 + room_len + map_len, player_count) {
        Ok((players, _)) => Ok(ServerMsg::RoomState { room_id, map, players }),
        Err(e) => Err(e),
    }
}

fn decode_snapshot(bytes: &[u8]) -> (r: Result<ServerMsg, DecodeError>)
    ensures
        server_result_view(r) == spec_decode_snapshot(bytes@),
{
    if bytes.len() < 22 {
        return Err(DecodeError::OutOfBounds);
    }
    let tick: u64 = get_u64(bytes, 1);
    let server_time_ms: u64 = get_u64(bytes, 9);
    let player_count: usize = bytes[17] as usize;
    let item_count: usize = bytes[18] as usize;
    let projectile_count: usize = get_u16(bytes, 19) as usize;
    let event_count: usize = bytes[21] as usize;
    let (players, at_items) = match decode_players(bytes, 22, player_count) {
        Ok(done) => done,
        Err(e) => {
            return Err(e);
        },
    };
    let (items, at_projectiles) = match decode_items(bytes, at_items, item_count) {
        Ok(done) => done,
        Err(e) => {
            return Err(e);
        },
    };
    let (projectiles, at_events) = match decode_projectiles(
        bytes,
        at_projectiles,
        projectile_count,
    ) {
        Ok(done) => done,
        Err(e) => {
            return Err(e);
        },
    };
    match decode_events(bytes, at_events, event_count) {
        Ok((events, _)) => Ok(
            ServerMsg::Snapshot { tick, server_time_ms, players, items, projectiles, events },
        ),
        Err(e) => Err(e),
    }
}

/// Decodes a frame that the server sent: a welcome, a room state, word of a
/// player who joined or left, a snapshot, a pong, or the reason of a
/// rejected join, a closed room or a kick. An empty frame, an unknown tag,
/// a frame that ends too early and a string that is not UTF-8 are each
/// refused with their error.
pub fn decode_server_message(bytes: &[u8]) -> (r: Result<ServerMsg, DecodeError>)
    ensures
        server_result_view(r) == spec_decode_server(bytes@),
{
    if bytes.len() == 0 {
        return Err(DecodeError::Empty);
    }
    let first: u8 = bytes[0];
    if first == MSG_WELCOME {
        if bytes.len() < 9 {
            return Err(DecodeError::OutOfBounds);
        }
        Ok(ServerMsg::Welcome { player_id: get_u64(bytes, 1) })
    } else if first == MSG_ROOM_STATE {
        decode_room_state(bytes)
    } else if first == MSG_PLAYER_JOINED {
        if bytes.len() < 10 {
            return Err(DecodeError::OutOfBounds);
        }
        let player_id: u64 = get_u64(bytes, 1);
        match read_string(bytes, 10, bytes[9] as usize) {
            Ok(username) => Ok(
                ServerMsg::PlayerJoined {
                    player: PlayerInfo {
                        id: player_id,
                        username,
                        model: None,
                        skin: None,
                        state: None,
                    },
                },
            ),
            Err(e) => Err(e),
        }
    } else if first == MSG_PLAYER_LEFT {
        if bytes.len() < 9 {
            return Err(DecodeError::OutOfBounds);
        }
        Ok(ServerMsg::PlayerLeft { player_id: get_u64(bytes, 1) })
    } else if first == MSG_SNAPSHOT {
        decode_snapshot(bytes)
    } else if first == MSG_PONG {
        if bytes.len() < 17 {
            return Err(DecodeError::OutOfBounds);
        }
        Ok(
            ServerMsg::Pong {
                client_time_ms: get_u64(bytes, 1),
                server_time_ms: get_u64(bytes, 9),
            },
        )
    } else if first == MSG_JOIN_REJECTED {
        match decode_reason(bytes) {
            Ok(reason) => Ok(ServerMsg::JoinRejected { reason }),
            Err(e) => Err(e),
        }
    } else if first == MSG_ROOM_CLOSED {
        match decode_reason(bytes) {
            Ok(reason) => Ok(ServerMsg::RoomClosed { reason }),
            Err(e) => Err(e),
        }
    } else if first == MSG_KICKED {
        match decode_reason(bytes) {
            Ok(reason) => Ok(ServerMsg::Kicked { reason }),
            Err(e) => Err(e),
        }
    } else {
        Err(DecodeError::UnknownType(first))
    }
}

} // verus!
