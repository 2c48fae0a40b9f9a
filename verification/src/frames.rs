//! The byte layout of every frame, stated as functions from values to bytes.

use vstd::prelude::*;
use vstd::utf8::encode_utf8;
use crate::constants::{
    EVENT_BULLET_IMPACT, EVENT_DAMAGE, EVENT_EXPLOSION, EVENT_GAUNTLET, EVENT_PROJECTILE_REMOVE,
    EVENT_PROJECTILE_SPAWN, EVENT_RAIL, EVENT_SHAFT, EVENT_WEAPON_FIRED, MAX_USERNAME_LEN,
    MSG_HELLO, MSG_INPUT, MSG_JOIN_ROOM, MSG_PING, MSG_PLAYER_JOINED, MSG_PLAYER_LEFT, MSG_PONG,
    ITEM_RECORD_LEN, MSG_ROOM_STATE, MSG_SNAPSHOT, MSG_WELCOME, PLAYER_RECORD_LEN,
    PROJECTILE_RECORD_LEN, SNAPSHOT_HEADER_LEN, WEAPON_COUNT,
};
use crate::types::{
    EffectEvent, ItemSnapshot, PlayerSnapshot, PlayerSnapshotView, ProjectileSnapshot,
};
use crate::wire::{i16_le, i64_le, i8_bits, u16_le, u32_le, u64_le};

verus! {

/// 1 for `true`, 0 for `false`.
pub open spec fn bit(b: bool) -> int {
    if b {
        1
    } else {
        0
    }
}

/// Whether bit `k` (counted from the least significant) is set in `v`.
pub open spec fn bit_set(v: int, weight: int) -> bool {
    (v / weight) % 2 == 1
}

/// How many bytes of a string go on the wire where the length field holds `max` at most.
pub open spec fn field_len(b: Seq<u8>, max: int) -> int {
    if b.len() <= max {
        b.len() as int
    } else {
        max
    }
}

/// The bytes of a string that go on the wire: its first `field_len` bytes.
pub open spec fn field_bytes(b: Seq<u8>, max: int) -> Seq<u8> {
    b.subrange(0, field_len(b, max))
}

/// A string with its one-byte length before it.
pub open spec fn str_field(b: Seq<u8>, max: int) -> Seq<u8> {
    seq![field_len(b, max) as u8] + field_bytes(b, max)
}

/// A count as a one-byte field holds it.
pub open spec fn count_u8(n: nat) -> u8 {
    if n <= 255 {
        n as u8
    } else {
        255u8
    }
}

/// A count as a two-byte field holds it.
pub open spec fn count_u16(n: nat) -> u16 {
    if n <= 65535 {
        n as u16
    } else {
        65535u16
    }
}

/// `v` brought into the range of `i16`.
pub open spec fn sat_i16(v: i32) -> i16 {
    if v < -32768 {
        -32768i16
    } else if v > 32767 {
        32767i16
    } else {
        v as i16
    }
}

/// `v` brought into the range of `u8`.
pub open spec fn sat_u8(v: i32) -> u8 {
    if v < 0 {
        0u8
    } else if v > 255 {
        255u8
    } else {
        v as u8
    }
}

/// The low eight bits of `v`.
pub open spec fn low_byte(v: i32) -> u8 {
    (v % 256) as u8
}

pub open spec fn hello_frame(name: Seq<u8>) -> Seq<u8> {
    seq![MSG_HELLO] + str_field(name, MAX_USERNAME_LEN as int)
}

pub open spec fn join_room_frame(room: Seq<u8>, map: Seq<u8>) -> Seq<u8> {
    seq![MSG_JOIN_ROOM, field_len(room, 255) as u8, field_len(map, 255) as u8] + field_bytes(
        room,
        255,
    ) + field_bytes(map, 255)
}

/// The flags byte of an input frame.
pub open spec fn input_flags(
    key_up: bool,
    key_down: bool,
    key_left: bool,
    key_right: bool,
    mouse_down: bool,
    facing_left: bool,
) -> u8 {
    (bit(key_up) + 2 * bit(key_down) + 4 * bit(key_left) + 8 * bit(key_right) + 16 * bit(
        mouse_down,
    ) + 32 * bit(facing_left)) as u8
}

pub open spec fn input_frame(
    seq: u64,
    aim_angle: u32,
    key_up: bool,
    key_down: bool,
    key_left: bool,
    key_right: bool,
    mouse_down: bool,
    facing_left: bool,
    weapon_switch: i8,
    weapon_scroll: i8,
) -> Seq<u8> {
    seq![MSG_INPUT] + u64_le(seq) + u32_le(aim_angle) + seq![
        input_flags(key_up, key_down, key_left, key_right, mouse_down, facing_left),
        i8_bits(weapon_switch),
        i8_bits(weapon_scroll),
    ]
}

pub open spec fn ping_frame(client_time_ms: u64) -> Seq<u8> {
    seq![MSG_PING] + u64_le(client_time_ms)
}

pub open spec fn welcome_frame(player_id: u64) -> Seq<u8> {
    seq![MSG_WELCOME] + u64_le(player_id)
}

pub open spec fn player_joined_frame(id: u64, name: Seq<u8>) -> Seq<u8> {
    seq![MSG_PLAYER_JOINED] + u64_le(id) + str_field(name, 255)
}

pub open spec fn player_left_frame(id: u64) -> Seq<u8> {
    seq![MSG_PLAYER_LEFT] + u64_le(id)
}

pub open spec fn pong_frame(client_time_ms: u64, server_time_ms: u64) -> Seq<u8> {
    seq![MSG_PONG] + u64_le(client_time_ms) + u64_le(server_time_ms)
}

/// A frame that carries one reason string: join-rejected, room-closed, kicked.
pub open spec fn reason_frame(tag: u8, reason: Seq<u8>) -> Seq<u8> {
    seq![tag] + str_field(reason, 255)
}

/// The weapon bitset of a player record: bit `i` says that weapon `i` is owned.
pub open spec fn weapon_bits(w: Seq<bool>) -> u16 {
    (bit(w[0]) + 2 * bit(w[1]) + 4 * bit(w[2]) + 8 * bit(w[3]) + 16 * bit(w[4]) + 32 * bit(w[5])
        + 64 * bit(w[6]) + 128 * bit(w[7]) + 256 * bit(w[8])) as u16
}

/// The flags byte of a player record.
pub open spec fn player_flags(
    facing_left: bool,
    crouch: bool,
    dead: bool,
    key_left: bool,
    key_right: bool,
    key_up: bool,
    key_down: bool,
) -> u8 {
    (bit(facing_left) + 2 * bit(crouch) + 4 * bit(dead) + 8 * bit(key_left) + 16 * bit(key_right)
        + 32 * bit(key_up) + 64 * bit(key_down)) as u8
}

/// The nine ammunition counts of a player record, each brought into `i16`.
pub open spec fn ammo_bytes(ammo: Seq<i32>, n: nat) -> Seq<u8>
    decreases n,
{
    if n == 0 {
        Seq::empty()
    } else {
        ammo_bytes(ammo, (n - 1) as nat) + i16_le(sat_i16(ammo[n - 1]))
    }
}

/// The 63 bytes of a player record.
pub open spec fn player_record(s: PlayerSnapshotView) -> Seq<u8> {
    u64_le(s.id) + u32_le(s.x) + u32_le(s.y) + u32_le(s.vx) + u32_le(s.vy) + u32_le(s.aim_angle)
        + i16_le(sat_i16(s.health)) + i16_le(sat_i16(s.armor)) + seq![
        low_byte(s.current_weapon),
        sat_u8(s.fire_cooldown),
    ] + u16_le(weapon_bits(s.weapons)) + ammo_bytes(s.ammo, WEAPON_COUNT as nat) + u64_le(
        s.last_input_seq,
    ) + seq![
        player_flags(
            s.facing_left,
            s.crouch,
            s.dead,
            s.key_left,
            s.key_right,
            s.key_up,
            s.key_down,
        ),
    ]
}

/// The three bytes of an item record.
pub open spec fn item_record(item: ItemSnapshot) -> Seq<u8> {
    seq![bit(item.active) as u8] + i16_le(item.respawn_timer)
}

/// The 33 bytes of a projectile record.
pub open spec fn projectile_record(p: ProjectileSnapshot) -> Seq<u8> {
    u64_le(p.id) + u32_le(p.x) + u32_le(p.y) + u32_le(p.velocity_x) + u32_le(p.velocity_y)
        + i64_le(p.owner_id) + seq![p.kind]
}

/// The bytes of one effect event: its tag, then its fields.
pub open spec fn event_record(e: EffectEvent) -> Seq<u8> {
    match e {
        EffectEvent::WeaponFired { player_id, weapon_id } => seq![EVENT_WEAPON_FIRED] + u64_le(
            player_id,
        ) + seq![low_byte(weapon_id)],
        EffectEvent::ProjectileSpawn { id, kind, x, y, velocity_x, velocity_y, owner_id } => seq![
            EVENT_PROJECTILE_SPAWN,
        ] + u64_le(id) + seq![kind] + u32_le(x) + u32_le(y) + u32_le(velocity_x) + u32_le(
            velocity_y,
        ) + u64_le(owner_id),
        EffectEvent::Rail { start_x, start_y, end_x, end_y } => seq![EVENT_RAIL] + u32_le(start_x)
            + u32_le(start_y) + u32_le(end_x) + u32_le(end_y),
        EffectEvent::Shaft { start_x, start_y, end_x, end_y } => seq![EVENT_SHAFT] + u32_le(
            start_x,
        ) + u32_le(start_y) + u32_le(end_x) + u32_le(end_y),
        EffectEvent::BulletImpact { x, y, radius } => seq![EVENT_BULLET_IMPACT] + u32_le(x)
            + u32_le(y) + u32_le(radius),
        EffectEvent::Gauntlet { x, y } => seq![EVENT_GAUNTLET] + u32_le(x) + u32_le(y),
        EffectEvent::Explosion { x, y, kind } => seq![EVENT_EXPLOSION] + u32_le(x) + u32_le(y)
            + seq![kind],
        EffectEvent::Damage { attacker_id, target_id, amount, killed } => seq![EVENT_DAMAGE]
            + u64_le(attacker_id) + u64_le(target_id) + i16_le(sat_i16(amount)) + seq![
            bit(killed) as u8,
        ],
        EffectEvent::ProjectileRemove { id, x, y, kind } => seq![EVENT_PROJECTILE_REMOVE] + u64_le(
            id,
        ) + u32_le(x) + u32_le(y) + seq![kind],
    }
}

/// How many bytes an effect event takes on the wire.
pub open spec fn event_len(e: EffectEvent) -> nat {
    match e {
        EffectEvent::WeaponFired { .. } => 10,
        EffectEvent::ProjectileSpawn { .. } => 34,
        EffectEvent::Rail { .. } => 17,
        EffectEvent::Shaft { .. } => 17,
        EffectEvent::BulletImpact { .. } => 13,
        EffectEvent::Gauntlet { .. } => 9,
        EffectEvent::Explosion { .. } => 10,
        EffectEvent::Damage { .. } => 20,
        EffectEvent::ProjectileRemove { .. } => 18,
    }
}

/// The records of `items`, one after the other.
pub open spec fn concat_records<T>(items: Seq<T>, record: spec_fn(T) -> Seq<u8>) -> Seq<u8>
    decreases items.len(),
{
    if items.len() == 0 {
        Seq::empty()
    } else {
        concat_records(items.drop_last(), record) + record(items.last())
    }
}

/// The sum of `len` over `items`.
pub open spec fn total_len<T>(items: Seq<T>, len: spec_fn(T) -> nat) -> nat
    decreases items.len(),
{
    if items.len() == 0 {
        0
    } else {
        total_len(items.drop_last(), len) + len(items.last())
    }
}

/// One player of a room-state frame: the name with its length, then the record.
pub open spec fn room_player_entry(p: (Seq<char>, PlayerSnapshotView)) -> Seq<u8> {
    str_field(encode_utf8(p.0), 255) + player_record(p.1)
}

/// The players of a room-state frame, one entry after the other.
pub open spec fn room_player_entries(players: Seq<(Seq<char>, PlayerSnapshotView)>) -> Seq<u8> {
    concat_records(players, |p: (Seq<char>, PlayerSnapshotView)| room_player_entry(p))
}

/// A list of named players as names and records.
pub open spec fn roster_view(players: Seq<(String, PlayerSnapshot)>) -> Seq<
    (Seq<char>, PlayerSnapshotView),
> {
    Seq::new(players.len(), |i: int| (players[i].0@, players[i].1@))
}

/// The player records of a snapshot, one after the other.
pub open spec fn player_records(players: Seq<PlayerSnapshotView>) -> Seq<u8> {
    concat_records(players, |p: PlayerSnapshotView| player_record(p))
}

/// The item records of a snapshot, one after the other.
pub open spec fn item_records(items: Seq<ItemSnapshot>) -> Seq<u8> {
    concat_records(items, |i: ItemSnapshot| item_record(i))
}

/// The projectile records of a snapshot, one after the other.
pub open spec fn projectile_records(projectiles: Seq<ProjectileSnapshot>) -> Seq<u8> {
    concat_records(projectiles, |p: ProjectileSnapshot| projectile_record(p))
}

/// The event records of a snapshot, one after the other.
pub open spec fn event_records(events: Seq<EffectEvent>) -> Seq<u8> {
    concat_records(events, |e: EffectEvent| event_record(e))
}

/// The bytes that the events of a snapshot take.
pub open spec fn events_len(events: Seq<EffectEvent>) -> nat {
    total_len(events, |e: EffectEvent| event_len(e))
}

pub open spec fn room_state_frame(
    room_id: Seq<u8>,
    map_name: Seq<u8>,
    players: Seq<(Seq<char>, PlayerSnapshotView)>,
) -> Seq<u8> {
    seq![
        MSG_ROOM_STATE,
        field_len(room_id, 255) as u8,
        field_len(map_name, 255) as u8,
        count_u8(players.len()),
    ] + field_bytes(room_id, 255) + field_bytes(map_name, 255) + room_player_entries(players)
}

/// The 22 bytes that open a snapshot frame.
pub open spec fn snapshot_header(
    tick: u64,
    server_time_ms: u64,
    players: nat,
    items: nat,
    projectiles: nat,
    events: nat,
) -> Seq<u8> {
    seq![MSG_SNAPSHOT] + u64_le(tick) + u64_le(server_time_ms) + seq![
        count_u8(players),
        count_u8(items),
    ] + u16_le(count_u16(projectiles)) + seq![count_u8(events)]
}

pub open spec fn snapshot_frame(
    tick: u64,
    server_time_ms: u64,
    players: Seq<PlayerSnapshotView>,
    items: Seq<ItemSnapshot>,
    projectiles: Seq<ProjectileSnapshot>,
    events: Seq<EffectEvent>,
) -> Seq<u8> {
    snapshot_header(
        tick,
        server_time_ms,
        players.len(),
        items.len(),
        projectiles.len(),
        events.len(),
    ) + player_records(players) + item_records(items) + projectile_records(projectiles)
        + event_records(events)
}

/// Appending one player appends its entry.
pub proof fn lemma_room_player_entries_push(
    players: Seq<(Seq<char>, PlayerSnapshotView)>,
    last: (Seq<char>, PlayerSnapshotView),
)
    ensures
        room_player_entries(players.push(last)) == room_player_entries(players)
            + room_player_entry(last),
{
    assert(players.push(last).drop_last() =~= players);
}

/// Appending one player appends its record.
pub proof fn lemma_player_records_push(players: Seq<PlayerSnapshotView>, last: PlayerSnapshotView)
    ensures
        player_records(players.push(last)) == player_records(players) + player_record(last),
{
    assert(players.push(last).drop_last() =~= players);
}

/// Appending one item appends its record.
pub proof fn lemma_item_records_push(items: Seq<ItemSnapshot>, last: ItemSnapshot)
    ensures
        item_records(items.push(last)) == item_records(items) + item_record(last),
{
    assert(items.push(last).drop_last() =~= items);
}

/// Appending one projectile appends its record.
pub proof fn lemma_projectile_records_push(
    projectiles: Seq<ProjectileSnapshot>,
    last: ProjectileSnapshot,
)
    ensures
        projectile_records(projectiles.push(last)) == projectile_records(projectiles)
            + projectile_record(last),
{
    assert(projectiles.push(last).drop_last() =~= projectiles);
}

/// Appending one event appends its record.
pub proof fn lemma_event_records_push(events: Seq<EffectEvent>, last: EffectEvent)
    ensures
        event_records(events.push(last)) == event_records(events) + event_record(last),
        events_len(events.push(last)) == events_len(events) + event_len(last),
{
    assert(events.push(last).drop_last() =~= events);
}

/// Player records take 63 bytes each.
pub proof fn lemma_player_records_len(players: Seq<PlayerSnapshotView>)
    ensures
        player_records(players).len() == PLAYER_RECORD_LEN * players.len(),
    decreases players.len(),
{
    if players.len() > 0 {
        lemma_player_records_len(players.drop_last());
        lemma_player_record_len(players.last());
    }
}

/// Item records take three bytes each.
pub proof fn lemma_item_records_len(items: Seq<ItemSnapshot>)
    ensures
        item_records(items).len() == ITEM_RECORD_LEN * items.len(),
    decreases items.len(),
{
    if items.len() > 0 {
        lemma_item_records_len(items.drop_last());
    }
}

/// Projectile records take 33 bytes each.
pub proof fn lemma_projectile_records_len(projectiles: Seq<ProjectileSnapshot>)
    ensures
        projectile_records(projectiles).len() == PROJECTILE_RECORD_LEN * projectiles.len(),
    decreases projectiles.len(),
{
    if projectiles.len() > 0 {
        lemma_projectile_records_len(projectiles.drop_last());
    }
}

/// Event records take what `event_len` says of each.
pub proof fn lemma_event_records_len(events: Seq<EffectEvent>)
    ensures
        event_records(events).len() == events_len(events),
    decreases events.len(),
{
    if events.len() > 0 {
        lemma_event_records_len(events.drop_last());
        lemma_event_record_len(events.last());
    }
}

/// The length of a snapshot frame: the header, then each record at its size.
pub proof fn lemma_snapshot_frame_len(
    tick: u64,
    server_time_ms: u64,
    players: Seq<PlayerSnapshotView>,
    items: Seq<ItemSnapshot>,
    projectiles: Seq<ProjectileSnapshot>,
    events: Seq<EffectEvent>,
)
    ensures
        snapshot_frame(tick, server_time_ms, players, items, projectiles, events).len()
            == SNAPSHOT_HEADER_LEN + PLAYER_RECORD_LEN * players.len() + ITEM_RECORD_LEN
            * items.len() + PROJECTILE_RECORD_LEN * projectiles.len() + events_len(events),
{
    lemma_player_records_len(players);
    lemma_item_records_len(items);
    lemma_projectile_records_len(projectiles);
    lemma_event_records_len(events);
    assert(snapshot_header(
        tick,
        server_time_ms,
        players.len(),
        items.len(),
        projectiles.len(),
        events.len(),
    ).len() == SNAPSHOT_HEADER_LEN);
}

/// The nine ammunition counts take eighteen bytes.
pub proof fn lemma_ammo_bytes_len(ammo: Seq<i32>, n: nat)
    ensures
        ammo_bytes(ammo, n).len() == 2 * n,
    decreases n,
{
    if n > 0 {
        lemma_ammo_bytes_len(ammo, (n - 1) as nat);
    }
}

/// A player record is 63 bytes long.
pub proof fn lemma_player_record_len(s: PlayerSnapshotView)
    ensures
        player_record(s).len() == PLAYER_RECORD_LEN,
{
    lemma_ammo_bytes_len(s.ammo, WEAPON_COUNT as nat);
}

/// An event record is as long as `event_len` says.
pub proof fn lemma_event_record_len(e: EffectEvent)
    ensures
        event_record(e).len() == event_len(e),
{
}

/// The length of every frame that holds no list: the tag, then each field
/// at its size, a string at the bytes that go out of it.
pub proof fn lemma_frame_lengths(
    text: Seq<u8>,
    other: Seq<u8>,
    tag: u8,
    a: u64,
    b: u64,
    aim: u32,
    flags: (bool, bool, bool, bool, bool, bool),
    weapon_switch: i8,
    weapon_scroll: i8,
)
    ensures
        hello_frame(text).len() == 2 + field_len(text, MAX_USERNAME_LEN as int),
        join_room_frame(text, other).len() == 3 + field_len(text, 255) + field_len(other, 255),
        input_frame(
            a,
            aim,
            flags.0,
            flags.1,
            flags.2,
            flags.3,
            flags.4,
            flags.5,
            weapon_switch,
            weapon_scroll,
        ).len() == 16,
        ping_frame(a).len() == 9,
        welcome_frame(a).len() == 9,
        player_joined_frame(a, text).len() == 10 + field_len(text, 255),
        player_left_frame(a).len() == 9,
        pong_frame(a, b).len() == 17,
        reason_frame(tag, text).len() == 2 + field_len(text, 255),
{
}

/// The bytes that the players of a room-state frame take: for each the
/// length byte, the name as it goes out, and the 63 bytes of the record.
pub open spec fn roster_len(players: Seq<(Seq<char>, PlayerSnapshotView)>) -> nat {
    total_len(
        players,
        |p: (Seq<char>, PlayerSnapshotView)|
            (1 + field_len(encode_utf8(p.0), 255) + PLAYER_RECORD_LEN) as nat,
    )
}

/// The length of a room-state frame: the four bytes of its header, the two
/// names as they go out, and what its players take.
pub proof fn lemma_room_state_frame_len(
    room_id: Seq<u8>,
    map_name: Seq<u8>,
    players: Seq<(Seq<char>, PlayerSnapshotView)>,
)
    ensures
        room_state_frame(room_id, map_name, players).len() == 4 + field_len(room_id, 255)
            + field_len(map_name, 255) + roster_len(players),
{
    lemma_roster_len(players);
}

/// The entries of a room-state frame take what `roster_len` says.
pub proof fn lemma_roster_len(players: Seq<(Seq<char>, PlayerSnapshotView)>)
    ensures
        room_player_entries(players).len() == roster_len(players),
    decreases players.len(),
{
    if players.len() > 0 {
        lemma_roster_len(players.drop_last());
        lemma_player_record_len(players.last().1);
    }
}

} // verus!
