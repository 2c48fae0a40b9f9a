//! Encoding of every frame of the protocol.

use vstd::prelude::*;
use vstd::utf8::encode_utf8;
use crate::constants::{
    EVENT_BULLET_IMPACT, EVENT_DAMAGE, EVENT_EXPLOSION, EVENT_GAUNTLET, EVENT_PROJECTILE_REMOVE,
    EVENT_PROJECTILE_SPAWN, EVENT_RAIL, EVENT_SHAFT, EVENT_WEAPON_FIRED, ITEM_RECORD_LEN,
    MAX_USERNAME_LEN, MSG_HELLO, MSG_INPUT, MSG_JOIN_REJECTED, MSG_JOIN_ROOM, MSG_KICKED, MSG_PING,
    MSG_PLAYER_JOINED, MSG_PLAYER_LEFT, MSG_PONG, MSG_ROOM_CLOSED, MSG_ROOM_STATE, MSG_SNAPSHOT,
    MSG_WELCOME, PLAYER_RECORD_LEN, PROJECTILE_RECORD_LEN, PROJ_BFG, PROJ_GRENADE, PROJ_PLASMA,
    SNAPSHOT_HEADER_LEN, WEAPON_COUNT,
};
use crate::frames::{
    ammo_bytes, count_u8, event_record, event_records, events_len, field_bytes, field_len,
    hello_frame, input_flags, input_frame, item_record, item_records, join_room_frame,
    lemma_event_records_push, lemma_item_records_push, lemma_player_records_push,
    lemma_projectile_records_push, lemma_room_player_entries_push, lemma_snapshot_frame_len,
    low_byte, ping_frame, player_flags, player_joined_frame, player_left_frame, player_record,
    player_records, pong_frame, projectile_record, projectile_records, reason_frame,
    room_player_entries, room_player_entry, room_state_frame, roster_view, sat_i16, sat_u8,
    snapshot_frame, snapshot_header, str_field, weapon_bits, welcome_frame,
};
use crate::types::{EffectEvent, ItemSnapshot, PlayerSnapshot, ProjectileSnapshot};
use crate::wire::{
    i16_le, i8_to_bits, push_u64, u16_le, u32_le, u64_le, write_i16, write_i64, write_u16,
    write_u32, write_u64, BinaryWriter,
};

verus! {

/// `v` brought into the range of `i16`.
pub fn clamp_i16(v: i32) -> (r: i16)
    ensures
        r == sat_i16(v),
{
    if v < -32768 {
        -32768
    } else if v > 32767 {
        32767
    } else {
        v as i16
    }
}

/// `v` brought into the range of `u8`.
pub fn clamp_u8(v: i32) -> (r: u8)
    ensures
        r == sat_u8(v),
{
    if v < 0 {
        0
    } else if v > 255 {
        255
    } else {
        v as u8
    }
}

/// The low eight bits of `v`.
pub fn low_byte_of(v: i32) -> (r: u8)
    ensures
        r == low_byte(v),
{
    let m: i32 = v % 256;
    if m < 0 {
        (m + 256) as u8
    } else {
        m as u8
    }
}

/// A count as a one-byte field holds it: 255 stands for anything larger.
pub fn count_byte(n: usize) -> (r: u8)
    ensures
        r == count_u8(n as nat),
{
    if n <= 255 {
        n as u8
    } else {
        255
    }
}

/// Writes the length of `bytes`, cut at `max`, and that many of its bytes.
fn write_str_field<W: BinaryWriter>(out: &mut W, bytes: &[u8], max: usize)
    requires
        max <= 255,
    ensures
        final(out).written() == old(out).written() + str_field(bytes@, max as int),
{
    let len: usize = if bytes.len() <= max {
        bytes.len()
    } else {
        max
    };
    out.put_u8(len as u8);
    out.put_slice(&bytes[0..len]);
    assert(out.written() =~= old(out).written() + str_field(bytes@, max as int));
}

/// The frame by which a client names itself. A name of more than 32 bytes is cut there.
pub fn encode_hello(username: &str) -> (out: Vec<u8>)
    ensures
        out@ == hello_frame(encode_utf8(username@)),
{
    let mut out: Vec<u8> = Vec::new();
    out.push(MSG_HELLO);
    write_str_field(&mut out, username.as_bytes(), MAX_USERNAME_LEN);
    assert(out@ =~= hello_frame(encode_utf8(username@)));
    out
}

/// The frame by which a client asks for a room and a map; an empty string asks for the default.
pub fn encode_join_room(room_id: &str, map: &str) -> (out: Vec<u8>)
    ensures
        out@ == join_room_frame(encode_utf8(room_id@), encode_utf8(map@)),
{
    let room_bytes = room_id.as_bytes();
    let map_bytes = map.as_bytes();
    let room_len: usize = if room_bytes.len() <= 255 {
        room_bytes.len()
    } else {
        255
    };
    let map_len: usize = if map_bytes.len() <= 255 {
        map_bytes.len()
    } else {
        255
    };
    let mut out: Vec<u8> = Vec::new();
    out.push(MSG_JOIN_ROOM);
    out.push(room_len as u8);
    out.push(map_len as u8);
    out.extend_from_slice(&room_bytes[0..room_len]);
    out.extend_from_slice(&map_bytes[0..map_len]);
    assert(out@ =~= join_room_frame(encode_utf8(room_id@), encode_utf8(map@)));
    out
}

/// The flags byte of an input frame.
fn pack_input_flags(
    key_up: bool,
    key_down: bool,
    key_left: bool,
    key_right: bool,
    mouse_down: bool,
    facing_left: bool,
) -> (flags: u8)
    ensures
        flags == input_flags(key_up, key_down, key_left, key_right, mouse_down, facing_left),
{
    let mut flags: u8 = 0;
    if key_up {
        flags = flags + 0x01;
    }
    if key_down {
        flags = flags + 0x02;
    }
    if key_left {
        flags = flags + 0x04;
    }
    if key_right {
        flags = flags + 0x08;
    }
    if mouse_down {
        flags = flags + 0x10;
    }
    if facing_left {
        flags = flags + 0x20;
    }
    flags
}

/// The frame that carries one tick's input of a client.
pub fn encode_input(
    seq: u64,
    aim_angle: u32,
    key_up: bool,
    key_down: bool,
    key_left: bool,
    key_right: bool,
    mouse_down: bool,
    facing_left: bool,
    weapon_switch: i8,
    weapon_scroll: i8,
) -> (out: Vec<u8>)
    ensures
        out@ == input_frame(
            seq,
            aim_angle,
            key_up,
            key_down,
            key_left,
            key_right,
            mouse_down,
            facing_left,
            weapon_switch,
            weapon_scroll,
        ),
        out@.len() == 16,
{
    let mut out: Vec<u8> = Vec::new();
    out.push(MSG_INPUT);
    write_u64(&mut out, seq);
    write_u32(&mut out, aim_angle);
    out.push(pack_input_flags(key_up, key_down, key_left, key_right, mouse_down, facing_left));
    out.push(i8_to_bits(weapon_switch));
    out.push(i8_to_bits(weapon_scroll));
    assert(out@ =~= input_frame(
        seq,
        aim_angle,
        key_up,
        key_down,
        key_left,
        key_right,
        mouse_down,
        facing_left,
        weapon_switch,
        weapon_scroll,
    ));
    out
}

/// The frame by which a client asks for the server's clock.
pub fn encode_ping(client_time_ms: u64) -> (out: Vec<u8>)
    ensures
        out@ == ping_frame(client_time_ms),
        out@.len() == 9,
{
    let mut out: Vec<u8> = Vec::new();
    out.push(MSG_PING);
    push_u64(&mut out, client_time_ms);
    out
}

/// The frame that tells a client its player id.
pub fn encode_welcome(player_id: u64) -> (out: Vec<u8>)
    ensures
        out@ == welcome_frame(player_id),
        out@.len() == 9,
{
    let mut out: Vec<u8> = Vec::new();
    out.push(MSG_WELCOME);
    push_u64(&mut out, player_id);
    out
}

/// The frame that tells a room of a new player. A name of more than 255 bytes is cut there.
pub fn encode_player_joined(id: u64, username: &str) -> (out: Vec<u8>)
    ensures
        out@ == player_joined_frame(id, encode_utf8(username@)),
{
    let mut out: Vec<u8> = Vec::new();
    out.push(MSG_PLAYER_JOINED);
    push_u64(&mut out, id);
    write_str_field(&mut out, username.as_bytes(), 255);
    assert(out@ =~= player_joined_frame(id, encode_utf8(username@)));
    out
}

/// The frame that tells a room that a player is gone.
pub fn encode_player_left(id: u64) -> (out: Vec<u8>)
    ensures
        out@ == player_left_frame(id),
        out@.len() == 9,
{
    let mut out: Vec<u8> = Vec::new();
    out.push(MSG_PLAYER_LEFT);
    push_u64(&mut out, id);
    out
}

/// The answer to a ping: the client's time as it came, and the server's.
pub fn encode_pong(client_time_ms: u64, server_time_ms: u64) -> (out: Vec<u8>)
    ensures
        out@ == pong_frame(client_time_ms, server_time_ms),
        out@.len() == 17,
{
    let mut out: Vec<u8> = Vec::new();
    out.push(MSG_PONG);
    push_u64(&mut out, client_time_ms);
    push_u64(&mut out, server_time_ms);
    assert(out@ =~= pong_frame(client_time_ms, server_time_ms));
    out
}

/// A frame of one tag and one reason string.
fn encode_reason(tag: u8, reason: &str) -> (out: Vec<u8>)
    ensures
        out@ == reason_frame(tag, encode_utf8(reason@)),
{
    let mut out: Vec<u8> = Vec::new();
    out.push(tag);
    write_str_field(&mut out, reason.as_bytes(), 255);
    assert(out@ =~= reason_frame(tag, encode_utf8(reason@)));
    out
}

/// The frame that refuses a join, with the reason.
pub fn encode_join_rejected(reason: &str) -> (out: Vec<u8>)
    ensures
        out@ == reason_frame(MSG_JOIN_REJECTED, encode_utf8(reason@)),
{
    encode_reason(MSG_JOIN_REJECTED, reason)
}

/// The frame that tells a room that it closes, with the reason.
pub fn encode_room_closed(reason: &str) -> (out: Vec<u8>)
    ensures
        out@ == reason_frame(MSG_ROOM_CLOSED, encode_utf8(reason@)),
{
    encode_reason(MSG_ROOM_CLOSED, reason)
}

/// The frame that tells a player that it was removed, with the reason.
pub fn encode_kicked(reason: &str) -> (out: Vec<u8>)
    ensures
        out@ == reason_frame(MSG_KICKED, encode_utf8(reason@)),
{
    encode_reason(MSG_KICKED, reason)
}

/// The weapon bitset of a player record.
fn pack_weapon_bits(weapons: &[bool; 9]) -> (bits: u16)
    ensures
        bits == weapon_bits(weapons@),
{
    let mut bits: u16 = 0;
    if weapons[0] {
        bits = bits + 1;
    }
    if weapons[1] {
        bits = bits + 2;
    }
    if weapons[2] {
        bits = bits + 4;
    }
    if weapons[3] {
        bits = bits + 8;
    }
    if weapons[4] {
        bits = bits + 16;
    }
    if weapons[5] {
        bits = bits + 32;
    }
    if weapons[6] {
        bits = bits + 64;
    }
    if weapons[7] {
        bits = bits + 128;
    }
    if weapons[8] {
        bits = bits + 256;
    }
    bits
}

/// The flags byte of a player record.
fn pack_player_flags(snap: &PlayerSnapshot) -> (flags: u8)
    ensures
        flags == player_flags(
            snap.facing_left,
            snap.crouch,
            snap.dead,
            snap.key_left,
            snap.key_right,
            snap.key_up,
            snap.key_down,
        ),
{
    let mut flags: u8 = 0;
    if snap.facing_left {
        flags = flags + 0x01;
    }
    if snap.crouch {
        flags = flags + 0x02;
    }
    if snap.dead {
        flags = flags + 0x04;
    }
    if snap.key_left {
        flags = flags + 0x08;
    }
    if snap.key_right {
        flags = flags + 0x10;
    }
    if snap.key_up {
        flags = flags + 0x20;
    }
    if snap.key_down {
        flags = flags + 0x40;
    }
    flags
}

/// Writes the 63 bytes of a player record. Health, armor and ammunition are
/// brought into `i16`, the fire cooldown into `u8`.
pub fn write_player_record<W: BinaryWriter>(out: &mut W, snap: &PlayerSnapshot)
    ensures
        final(out).written() == old(out).written() + player_record(snap@),
{
    write_u64(out, snap.id);
    write_u32(out, snap.x);
    write_u32(out, snap.y);
    write_u32(out, snap.vx);
    write_u32(out, snap.vy);
    write_u32(out, snap.aim_angle);
    write_i16(out, clamp_i16(snap.health));
    write_i16(out, clamp_i16(snap.armor));
    out.put_u8(low_byte_of(snap.current_weapon));
    out.put_u8(clamp_u8(snap.fire_cooldown));
    write_u16(out, pack_weapon_bits(&snap.weapons));
    let ghost head = out.written();
    assert(head =~= old(out).written() + (u64_le(snap.id) + u32_le(snap.x) + u32_le(snap.y)
        + u32_le(snap.vx) + u32_le(snap.vy) + u32_le(snap.aim_angle) + i16_le(
        sat_i16(snap.health),
    ) + i16_le(sat_i16(snap.armor)) + seq![
        low_byte(snap.current_weapon),
        sat_u8(snap.fire_cooldown),
    ] + u16_le(weapon_bits(snap.weapons@))));
    let mut idx: usize = 0;
    while idx < WEAPON_COUNT
        invariant
            idx <= WEAPON_COUNT,
            out.written() == head + ammo_bytes(snap.ammo@, idx as nat),
        decreases WEAPON_COUNT - idx,
    {
        write_i16(out, clamp_i16(snap.ammo[idx]));
        idx = idx + 1;
        assert(out.written() =~= head + ammo_bytes(snap.ammo@, idx as nat));
    }
    write_u64(out, snap.last_input_seq);
    out.put_u8(pack_player_flags(snap));
    assert(out.written() =~= old(out).written() + player_record(snap@));
}

/// Appends the 63 bytes of a player record to `out`.
pub fn encode_player_record(out: &mut Vec<u8>, snap: &PlayerSnapshot)
    ensures
        final(out)@ == old(out)@ + player_record(snap@),
{
    write_player_record(out, snap);
}

/// Writes one effect event: its tag, then its fields. A damage amount is
/// brought into `i16`.
pub fn write_event<W: BinaryWriter>(out: &mut W, event: &EffectEvent)
    ensures
        final(out).written() == old(out).written() + event_record(*event),
{
    match *event {
        EffectEvent::WeaponFired { player_id, weapon_id } => {
            out.put_u8(EVENT_WEAPON_FIRED);
            write_u64(out, player_id);
            out.put_u8(low_byte_of(weapon_id));
        },
        EffectEvent::ProjectileSpawn { id, kind, x, y, velocity_x, velocity_y, owner_id } => {
            out.put_u8(EVENT_PROJECTILE_SPAWN);
            write_u64(out, id);
            out.put_u8(kind);
            write_u32(out, x);
            write_u32(out, y);
            write_u32(out, velocity_x);
            write_u32(out, velocity_y);
            write_u64(out, owner_id);
        },
        EffectEvent::Rail { start_x, start_y, end_x, end_y } => {
            out.put_u8(EVENT_RAIL);
            write_u32(out, start_x);
            write_u32(out, start_y);
            write_u32(out, end_x);
            write_u32(out, end_y);
        },
        EffectEvent::Shaft { start_x, start_y, end_x, end_y } => {
            out.put_u8(EVENT_SHAFT);
            write_u32(out, start_x);
            write_u32(out, start_y);
            write_u32(out, end_x);
            write_u32(out, end_y);
        },
        EffectEvent::BulletImpact { x, y, radius } => {
            out.put_u8(EVENT_BULLET_IMPACT);
            write_u32(out, x);
            write_u32(out, y);
            write_u32(out, radius);
        },
        EffectEvent::Gauntlet { x, y } => {
            out.put_u8(EVENT_GAUNTLET);
            write_u32(out, x);
            write_u32(out, y);
        },
        EffectEvent::Explosion { x, y, kind } => {
            out.put_u8(EVENT_EXPLOSION);
            write_u32(out, x);
            write_u32(out, y);
            out.put_u8(kind);
        },
        EffectEvent::Damage { attacker_id, target_id, amount, killed } => {
            out.put_u8(EVENT_DAMAGE);
            write_u64(out, attacker_id);
            write_u64(out, target_id);
            write_i16(out, clamp_i16(amount));
            out.put_u8(if killed { 0x01 } else { 0x00 });
        },
        EffectEvent::ProjectileRemove { id, x, y, kind } => {
            out.put_u8(EVENT_PROJECTILE_REMOVE);
            write_u64(out, id);
            write_u32(out, x);
            write_u32(out, y);
            out.put_u8(kind);
        },
    }
    assert(out.written() =~= old(out).written() + event_record(*event));
}

/// Appends one effect event to `out`.
pub fn encode_event(out: &mut Vec<u8>, event: &EffectEvent)
    ensures
        final(out)@ == old(out)@ + event_record(*event),
{
    write_event(out, event);
}

/// The frame that shows a room to a player who joined: the room, the map, and
/// every player with its name and record. Names and ids of more than 255 bytes
/// are cut there; the player count stops at 255.
pub fn encode_room_state(room_id: &str, map_name: &str, players: &[(String, PlayerSnapshot)]) -> (out:
    Vec<u8>)
    ensures
        out@ == room_state_frame(
            encode_utf8(room_id@),
            encode_utf8(map_name@),
            roster_view(players@),
        ),
{
    let room_bytes = room_id.as_bytes();
    let map_bytes = map_name.as_bytes();
    let room_len: usize = if room_bytes.len() <= 255 {
        room_bytes.len()
    } else {
        255
    };
    let map_len: usize = if map_bytes.len() <= 255 {
        map_bytes.len()
    } else {
        255
    };
    let mut out: Vec<u8> = Vec::new();
    out.push(MSG_ROOM_STATE);
    out.push(room_len as u8);
    out.push(map_len as u8);
    out.push(count_byte(players.len()));
    out.extend_from_slice(&room_bytes[0..room_len]);
    out.extend_from_slice(&map_bytes[0..map_len]);
    let ghost head = out@;
    assert(head =~= seq![
        MSG_ROOM_STATE,
        field_len(encode_utf8(room_id@), 255) as u8,
        field_len(encode_utf8(map_name@), 255) as u8,
        count_u8(players@.len()),
    ] + field_bytes(encode_utf8(room_id@), 255) + field_bytes(encode_utf8(map_name@), 255));
    let ghost roster = roster_view(players@);
    let mut i: usize = 0;
    assert(out@ =~= head + room_player_entries(roster.take(0)));
    while i < players.len()
        invariant
            i <= players.len(),
            roster == roster_view(players@),
            out@ == head + room_player_entries(roster.take(i as int)),
        decreases players.len() - i,
    {
        let ghost before = out@;
        let entry = &players[i];
        write_str_field(&mut out, entry.0.as_str().as_bytes(), 255);
        write_player_record(&mut out, &entry.1);
        proof {
            lemma_room_player_entries_push(roster.take(i as int), roster[i as int]);
            assert(roster.take(i as int).push(roster[i as int]) =~= roster.take(i + 1));
            assert(out@ =~= before + room_player_entry(roster[i as int]));
        }
        i = i + 1;
    }
    assert(roster.take(roster.len() as int) =~= roster);
    out
}

/// Writes the 22 bytes that open a snapshot frame.
fn write_snapshot_header<W: BinaryWriter>(
    out: &mut W,
    tick: u64,
    server_time_ms: u64,
    players: usize,
    items: usize,
    projectiles: usize,
    events: usize,
)
    ensures
        final(out).written() == old(out).written() + snapshot_header(
            tick,
            server_time_ms,
            players as nat,
            items as nat,
            projectiles as nat,
            events as nat,
        ),
{
    out.put_u8(MSG_SNAPSHOT);
    write_u64(out, tick);
    write_u64(out, server_time_ms);
    out.put_u8(count_byte(players));
    out.put_u8(count_byte(items));
    write_u16(
        out,
        if projectiles <= 65535 {
            projectiles as u16
        } else {
            65535
        },
    );
    out.put_u8(count_byte(events));
    assert(out.written() =~= old(out).written() + snapshot_header(
        tick,
        server_time_ms,
        players as nat,
        items as nat,
        projectiles as nat,
        events as nat,
    ));
}

/// Writes the record of each player, in order.
fn write_player_records<W: BinaryWriter>(out: &mut W, players: &[PlayerSnapshot])
    ensures
        final(out).written() == old(out).written() + player_records(players.deep_view()),
{
    let ghost views = players.deep_view();
    let mut i: usize = 0;
    assert(out.written() =~= old(out).written() + player_records(views.take(0)));
    while i < players.len()
        invariant
            i <= players.len(),
            views == players.deep_view(),
            out.written() == old(out).written() + player_records(views.take(i as int)),
        decreases players.len() - i,
    {
        write_player_record(out, &players[i]);
        proof {
            assert(views[i as int] == players@[i as int]@);
            lemma_player_records_push(views.take(i as int), views[i as int]);
            assert(views.take(i as int).push(views[i as int]) =~= views.take(i + 1));
            assert(out.written() =~= old(out).written() + player_records(views.take(i + 1)));
        }
        i = i + 1;
    }
    assert(views.take(views.len() as int) =~= views);
}

/// Writes the three bytes of an item record.
fn write_item_record<W: BinaryWriter>(out: &mut W, item: &ItemSnapshot)
    ensures
        final(out).written() == old(out).written() + item_record(*item),
{
    out.put_u8(if item.active { 0x01 } else { 0x00 });
    write_i16(out, item.respawn_timer);
    assert(out.written() =~= old(out).written() + item_record(*item));
}

/// Writes the record of each item, in order.
fn write_item_records<W: BinaryWriter>(out: &mut W, items: &[ItemSnapshot])
    ensures
        final(out).written() == old(out).written() + item_records(items@),
{
    let mut i: usize = 0;
    assert(out.written() =~= old(out).written() + item_records(items@.take(0)));
    while i < items.len()
        invariant
            i <= items.len(),
            out.written() == old(out).written() + item_records(items@.take(i as int)),
        decreases items.len() - i,
    {
        write_item_record(out, &items[i]);
        proof {
            lemma_item_records_push(items@.take(i as int), items@[i as int]);
            assert(items@.take(i as int).push(items@[i as int]) =~= items@.take(i + 1));
            assert(out.written() =~= old(out).written() + item_records(items@.take(i + 1)));
        }
        i = i + 1;
    }
    assert(items@.take(items@.len() as int) =~= items@);
}

/// Writes the 33 bytes of a projectile record.
fn write_projectile_record<W: BinaryWriter>(out: &mut W, proj: &ProjectileSnapshot)
    ensures
        final(out).written() == old(out).written() + projectile_record(*proj),
{
    write_u64(out, proj.id);
    write_u32(out, proj.x);
    write_u32(out, proj.y);
    write_u32(out, proj.velocity_x);
    write_u32(out, proj.velocity_y);
    write_i64(out, proj.owner_id);
    out.put_u8(proj.kind);
    assert(out.written() =~= old(out).written() + projectile_record(*proj));
}

/// Writes the record of each projectile, in order.
fn write_projectile_records<W: BinaryWriter>(out: &mut W, projectiles: &[ProjectileSnapshot])
    ensures
        final(out).written() == old(out).written() + projectile_records(projectiles@),
{
    let mut i: usize = 0;
    assert(out.written() =~= old(out).written() + projectile_records(projectiles@.take(0)));
    while i < projectiles.len()
        invariant
            i <= projectiles.len(),
            out.written() == old(out).written() + projectile_records(
                projectiles@.take(i as int),
            ),
        decreases projectiles.len() - i,
    {
        write_projectile_record(out, &projectiles[i]);
        proof {
            lemma_projectile_records_push(projectiles@.take(i as int), projectiles@[i as int]);
            assert(projectiles@.take(i as int).push(projectiles@[i as int])
                =~= projectiles@.take(i + 1));
            assert(out.written() =~= old(out).written() + projectile_records(
                projectiles@.take(i + 1),
            ));
        }
        i = i + 1;
    }
    assert(projectiles@.take(projectiles@.len() as int) =~= projectiles@);
}

/// Writes each event, in order.
fn write_event_records<W: BinaryWriter>(out: &mut W, events: &[EffectEvent])
    ensures
        final(out).written() == old(out).written() + event_records(events@),
{
    let mut i: usize = 0;
    assert(out.written() =~= old(out).written() + event_records(events@.take(0)));
    while i < events.len()
        invariant
            i <= events.len(),
            out.written() == old(out).written() + event_records(events@.take(i as int)),
        decreases events.len() - i,
    {
        write_event(out, &events[i]);
        proof {
            lemma_event_records_push(events@.take(i as int), events@[i as int]);
            assert(events@.take(i as int).push(events@[i as int]) =~= events@.take(i + 1));
            assert(out.written() =~= old(out).written() + event_records(events@.take(i + 1)));
        }
        i = i + 1;
    }
    assert(events@.take(events@.len() as int) =~= events@);
}

/// Writes a snapshot frame: the header with its four counts, then the player,
/// item and projectile records and the events. Every record handed in is
/// written; a count that does not fit its field stops at the field's maximum.
pub fn write_snapshot<W: BinaryWriter>(
    out: &mut W,
    tick: u64,
    server_time_ms: u64,
    players: &[PlayerSnapshot],
    items: &[ItemSnapshot],
    projectiles: &[ProjectileSnapshot],
    events: &[EffectEvent],
)
    ensures
        final(out).written() == old(out).written() + snapshot_frame(
            tick,
            server_time_ms,
            players.deep_view(),
            items@,
            projectiles@,
            events@,
        ),
{
    write_snapshot_header(
        out,
        tick,
        server_time_ms,
        players.len(),
        items.len(),
        projectiles.len(),
        events.len(),
    );
    write_player_records(out, players);
    write_item_records(out, items);
    write_projectile_records(out, projectiles);
    write_event_records(out, events);
    assert(out.written() =~= old(out).written() + snapshot_frame(
        tick,
        server_time_ms,
        players.deep_view(),
        items@,
        projectiles@,
        events@,
    ));
}

/// A snapshot frame in a buffer of its own. Its length is the 22 bytes of the
/// header, 63 for each player, 3 for each item, 33 for each projectile, and
/// what each event takes.
pub fn encode_snapshot(
    tick: u64,
    server_time_ms: u64,
    players: &[PlayerSnapshot],
    items: &[ItemSnapshot],
    projectiles: &[ProjectileSnapshot],
    events: &[EffectEvent],
) -> (out: Vec<u8>)
    ensures
        out@ == snapshot_frame(tick, server_time_ms, players.deep_view(), items@, projectiles@, events@),
        out@.len() == SNAPSHOT_HEADER_LEN + PLAYER_RECORD_LEN * players@.len() + ITEM_RECORD_LEN
            * items@.len() + PROJECTILE_RECORD_LEN * projectiles@.len() + events_len(events@),
{
    let mut out: Vec<u8> = Vec::new();
    write_snapshot(&mut out, tick, server_time_ms, players, items, projectiles, events);
    proof {
        lemma_snapshot_frame_len(
            tick,
            server_time_ms,
            players.deep_view(),
            items@,
            projectiles@,
            events@,
        );
        assert(out@ =~= snapshot_frame(
            tick,
            server_time_ms,
            players.deep_view(),
            items@,
            projectiles@,
            events@,
        ));
    }
    out
}

/// The name of a projectile kind. An unknown kind reads as a rocket.
pub fn kind_u8_to_str(kind: u8) -> (name: &'static str)
    ensures
        name@ == kind_name(kind),
{
    if kind == PROJ_GRENADE {
        "grenade"
    } else if kind == PROJ_PLASMA {
        "plasma"
    } else if kind == PROJ_BFG {
        "bfg"
    } else {
        "rocket"
    }
}

/// The name that stands for a projectile kind on the client's side.
pub open spec fn kind_name(kind: u8) -> Seq<char> {
    if kind == PROJ_GRENADE {
        "grenade"@
    } else if kind == PROJ_PLASMA {
        "plasma"@
    } else if kind == PROJ_BFG {
        "bfg"@
    } else {
        "rocket"@
    }
}

} // verus!
