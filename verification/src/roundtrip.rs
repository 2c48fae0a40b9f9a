//! What encoding and decoding owe each other.

use vstd::prelude::*;
use vstd::utf8::{encode_utf8, encode_utf8_decode_utf8, encode_utf8_valid_utf8};
use crate::constants::{MAX_USERNAME_LEN, MSG_HELLO, MSG_INPUT, MSG_JOIN_ROOM, MSG_PING};
use crate::decode::{
    spec_decode_client, spec_decode_hello, spec_decode_input, spec_decode_join_room,
    spec_decode_ping,
};
use crate::encode::{encode_hello, encode_input, encode_join_room, encode_ping, low_byte_of};
use crate::frames::{
    bit, bit_set, hello_frame, input_flags, input_frame, join_room_frame, low_byte, ping_frame,
    player_flags,
};
use crate::decode::{at_i16, at_u16, at_u32, at_u64};
use crate::decode_server::{ammo_at, player_at, spec_decode_player_record, weapons_of};
use crate::frames::{
    ammo_bytes, lemma_ammo_bytes_len, player_record, sat_i16, sat_u8, weapon_bits,
};
use crate::types::{ClientMsg, ClientMsgView, PlayerSnapshotView};
use crate::wire::{i16_bits, i16_le, lemma_u16_le_roundtrip, u16_le};
use crate::wire::{
    i8_bits, i8_from_bits, i8_of_bits, lemma_u32_le_roundtrip, lemma_u64_le_roundtrip, u32_le,
    u64_le,
};

verus! {

/// The signed byte that carries `v` on the wire: its low eight bits.
pub open spec fn wire_i8(v: i32) -> i8 {
    i8_from_bits(low_byte(v))
}

/// The characters of an optional string, none for an absent one.
pub open spec fn chars_or_empty(s: Option<Seq<char>>) -> Seq<char> {
    match s {
        Some(c) => c,
        None => Seq::empty(),
    }
}

/// The frame that carries a client message.
pub open spec fn client_frame(m: ClientMsgView) -> Seq<u8> {
    match m {
        ClientMsgView::Hello { username } => hello_frame(encode_utf8(username)),
        ClientMsgView::JoinRoom { room_id, map } => join_room_frame(
            encode_utf8(chars_or_empty(room_id)),
            encode_utf8(chars_or_empty(map)),
        ),
        ClientMsgView::Input {
            seq,
            key_up,
            key_down,
            key_left,
            key_right,
            mouse_down,
            weapon_switch,
            weapon_scroll,
            aim_angle,
            facing_left,
        } => input_frame(
            seq,
            aim_angle,
            key_up,
            key_down,
            key_left,
            key_right,
            mouse_down,
            facing_left,
            wire_i8(weapon_switch),
            wire_i8(weapon_scroll),
        ),
        ClientMsgView::Ping { client_time_ms } => ping_frame(client_time_ms),
    }
}

/// Whether a string, if there is one, is not empty and takes 255 bytes at most.
pub open spec fn fits_optional(s: Option<Seq<char>>) -> bool {
    s matches Some(c) ==> 0 < encode_utf8(c).len() <= 255
}

/// Whether the wire can carry `m` as it is: a user name of 32 bytes at most,
/// a room or map name that is absent or of 1 to 255 bytes, a weapon switch
/// and a scroll that fit a signed byte.
pub open spec fn client_msg_fits(m: ClientMsgView) -> bool {
    match m {
        ClientMsgView::Hello { username } => encode_utf8(username).len() <= MAX_USERNAME_LEN,
        ClientMsgView::JoinRoom { room_id, map } => fits_optional(room_id) && fits_optional(map),
        ClientMsgView::Input { weapon_switch, weapon_scroll, .. } => {
            &&& -128 <= weapon_switch <= 127
            &&& -128 <= weapon_scroll <= 127
        },
        ClientMsgView::Ping { .. } => true,
    }
}

/// Encodes a client message. A weapon switch or scroll goes out as its low
/// eight bits, an absent room or map as the empty string.
pub fn encode_client_message(msg: &ClientMsg) -> (out: Vec<u8>)
    ensures
        out@ == client_frame(msg@),
{
    match msg {
        ClientMsg::Hello { username } => encode_hello(username.as_str()),
        ClientMsg::JoinRoom { room_id, map } => {
            proof {
                reveal_strlit("");
            }
            let room: &str = match room_id {
                Some(s) => s.as_str(),
                None => "",
            };
            let map_name: &str = match map {
                Some(s) => s.as_str(),
                None => "",
            };
            assert(room@ =~= chars_or_empty(room_id.deep_view()));
            assert(map_name@ =~= chars_or_empty(map.deep_view()));
            encode_join_room(room, map_name)
        },
        ClientMsg::Input {
            seq,
            key_up,
            key_down,
            key_left,
            key_right,
            mouse_down,
            weapon_switch,
            weapon_scroll,
            aim_angle,
            facing_left,
        } => encode_input(
            *seq,
            *aim_angle,
            *key_up,
            *key_down,
            *key_left,
            *key_right,
            *mouse_down,
            *facing_left,
            i8_of_bits(low_byte_of(*weapon_switch)),
            i8_of_bits(low_byte_of(*weapon_scroll)),
        ),
        ClientMsg::Ping { client_time_ms } => encode_ping(*client_time_ms),
    }
}

/// The six flags of an input frame come back as they went in.
pub proof fn lemma_input_flags_roundtrip(
    key_up: bool,
    key_down: bool,
    key_left: bool,
    key_right: bool,
    mouse_down: bool,
    facing_left: bool,
)
    ensures
        ({
            let f = input_flags(key_up, key_down, key_left, key_right, mouse_down, facing_left)
                as int;
            &&& bit_set(f, 1) == key_up
            &&& bit_set(f, 2) == key_down
            &&& bit_set(f, 4) == key_left
            &&& bit_set(f, 8) == key_right
            &&& bit_set(f, 16) == mouse_down
            &&& bit_set(f, 32) == facing_left
        }),
{
}

/// The seven flags of a player record come back from the flags byte as they
/// went in.
pub proof fn lemma_player_flags_roundtrip(
    facing_left: bool,
    crouch: bool,
    dead: bool,
    key_left: bool,
    key_right: bool,
    key_up: bool,
    key_down: bool,
)
    ensures
        ({
            let f = player_flags(facing_left, crouch, dead, key_left, key_right, key_up, key_down)
                as int;
            &&& bit_set(f, 1) == facing_left
            &&& bit_set(f, 2) == crouch
            &&& bit_set(f, 4) == dead
            &&& bit_set(f, 8) == key_left
            &&& bit_set(f, 16) == key_right
            &&& bit_set(f, 32) == key_up
            &&& bit_set(f, 64) == key_down
        }),
{
    let f: int = player_flags(facing_left, crouch, dead, key_left, key_right, key_up, key_down)
        as int;
    let r6: int = bit(key_down);
    let r5: int = bit(key_up) + 2 * r6;
    let r4: int = bit(key_right) + 2 * r5;
    let r3: int = bit(key_left) + 2 * r4;
    let r2: int = bit(dead) + 2 * r3;
    let r1: int = bit(crouch) + 2 * r2;
    assert(f == bit(facing_left) + 2 * r1);
    assert(f / 2 == r1);
    assert(f / 4 == r2) by {
        assert(r1 / 2 == r2);
        assert(f / 4 == (f / 2) / 2);
    }
    assert(f / 8 == r3) by {
        assert(r2 / 2 == r3);
        assert(f / 8 == (f / 4) / 2);
    }
    assert(f / 16 == r4) by {
        assert(r3 / 2 == r4);
        assert(f / 16 == (f / 8) / 2);
    }
    assert(f / 32 == r5) by {
        assert(r4 / 2 == r5);
        assert(f / 32 == (f / 16) / 2);
    }
    assert(f / 64 == r6) by {
        assert(r5 / 2 == r6);
        assert(f / 64 == (f / 32) / 2);
    }
}

/// A flags byte that holds only the seven bits of a player record is rebuilt
/// bit for bit from the flags it decodes to.
pub proof fn lemma_player_flags_bit_exact(byte: u8)
    requires
        byte < 128,
    ensures
        player_flags(
            bit_set(byte as int, 1),
            bit_set(byte as int, 2),
            bit_set(byte as int, 4),
            bit_set(byte as int, 8),
            bit_set(byte as int, 16),
            bit_set(byte as int, 32),
            bit_set(byte as int, 64),
        ) == byte,
{
    let v: int = byte as int;
    let q1: int = v / 2;
    let q2: int = q1 / 2;
    let q3: int = q2 / 2;
    let q4: int = q3 / 2;
    let q5: int = q4 / 2;
    let q6: int = q5 / 2;
    assert(v == 2 * q1 + v % 2);
    assert(q1 == 2 * q2 + q1 % 2);
    assert(q2 == 2 * q3 + q2 % 2);
    assert(q3 == 2 * q4 + q3 % 2);
    assert(q4 == 2 * q5 + q4 % 2);
    assert(q5 == 2 * q6 + q5 % 2);
    assert(q2 == v / 4);
    assert(q3 == v / 8) by {
        assert(v / 8 == (v / 4) / 2);
    }
    assert(q4 == v / 16) by {
        assert(v / 16 == (v / 8) / 2);
    }
    assert(q5 == v / 32) by {
        assert(v / 32 == (v / 16) / 2);
    }
    assert(q6 == v / 64) by {
        assert(v / 64 == (v / 32) / 2);
    }
    assert(q6 < 2);
    assert(v / 1 == v);
}

/// A hello comes back as it went out, where its name takes 32 bytes at most.
pub proof fn lemma_hello_roundtrip(username: Seq<char>)
    requires
        encode_utf8(username).len() <= MAX_USERNAME_LEN,
    ensures
        spec_decode_hello(hello_frame(encode_utf8(username))) == Ok::<
            ClientMsgView,
            crate::types::DecodeError,
        >(ClientMsgView::Hello { username }),
        hello_frame(encode_utf8(username))[0] == MSG_HELLO,
        hello_frame(encode_utf8(username)).len() > 0,
{
    let name = encode_utf8(username);
    let b = hello_frame(name);
    encode_utf8_valid_utf8(username);
    encode_utf8_decode_utf8(username);
    assert(b.len() == 2 + name.len());
    assert(b[1] == name.len());
    assert(b.subrange(2, 2 + name.len() as int) =~= name);
}

/// A join-room comes back as it went out, where each of its names is
/// absent or takes 1 to 255 bytes.
pub proof fn lemma_join_room_roundtrip(room_id: Option<Seq<char>>, map: Option<Seq<char>>)
    requires
        fits_optional(room_id),
        fits_optional(map),
    ensures
        spec_decode_join_room(
            join_room_frame(
                encode_utf8(chars_or_empty(room_id)),
                encode_utf8(chars_or_empty(map)),
            ),
        ) == Ok::<ClientMsgView, crate::types::DecodeError>(
            ClientMsgView::JoinRoom { room_id, map },
        ),
        join_room_frame(
            encode_utf8(chars_or_empty(room_id)),
            encode_utf8(chars_or_empty(map)),
        )[0] == MSG_JOIN_ROOM,
        join_room_frame(
            encode_utf8(chars_or_empty(room_id)),
            encode_utf8(chars_or_empty(map)),
        ).len() > 0,
{
    let room = encode_utf8(chars_or_empty(room_id));
    let map_b = encode_utf8(chars_or_empty(map));
    let b = join_room_frame(room, map_b);
    encode_utf8_valid_utf8(chars_or_empty(room_id));
    encode_utf8_decode_utf8(chars_or_empty(room_id));
    encode_utf8_valid_utf8(chars_or_empty(map));
    encode_utf8_decode_utf8(chars_or_empty(map));
    assert(encode_utf8(Seq::<char>::empty()).len() == 0);
    assert(b.len() == 3 + room.len() + map_b.len());
    assert(b[1] == room.len());
    assert(b[2] == map_b.len());
    assert(b.subrange(3, 3 + room.len() as int) =~= room);
    assert(b.subrange(3 + room.len() as int, 3 + room.len() as int + map_b.len() as int)
        =~= map_b);
}

/// An input comes back as it went out, where its weapon switch and scroll
/// fit a signed byte.
pub proof fn lemma_input_roundtrip(
    seq: u64,
    key_up: bool,
    key_down: bool,
    key_left: bool,
    key_right: bool,
    mouse_down: bool,
    weapon_switch: i32,
    weapon_scroll: i32,
    aim_angle: u32,
    facing_left: bool,
)
    requires
        -128 <= weapon_switch <= 127,
        -128 <= weapon_scroll <= 127,
    ensures
        ({
            let b = input_frame(
                seq,
                aim_angle,
                key_up,
                key_down,
                key_left,
                key_right,
                mouse_down,
                facing_left,
                wire_i8(weapon_switch),
                wire_i8(weapon_scroll),
            );
            &&& b.len() == 16
            &&& b[0] == MSG_INPUT
            &&& spec_decode_input(b) == Ok::<ClientMsgView, crate::types::DecodeError>(
                ClientMsgView::Input {
                    seq,
                    key_up,
                    key_down,
                    key_left,
                    key_right,
                    mouse_down,
                    weapon_switch,
                    weapon_scroll,
                    aim_angle,
                    facing_left,
                },
            )
        }),
{
    let b = input_frame(
        seq,
        aim_angle,
        key_up,
        key_down,
        key_left,
        key_right,
        mouse_down,
        facing_left,
        wire_i8(weapon_switch),
        wire_i8(weapon_scroll),
    );
    lemma_u64_le_roundtrip(seq);
    lemma_u32_le_roundtrip(aim_angle);
    lemma_input_flags_roundtrip(key_up, key_down, key_left, key_right, mouse_down, facing_left);
    lemma_wire_i8(weapon_switch);
    lemma_wire_i8(weapon_scroll);
    assert(b.len() == 16);
    assert(b.subrange(1, 9) =~= u64_le(seq));
    assert(b.subrange(9, 13) =~= u32_le(aim_angle));
    assert(b[13] == input_flags(key_up, key_down, key_left, key_right, mouse_down, facing_left));
    assert(b[14] == i8_bits(wire_i8(weapon_switch)));
    assert(b[15] == i8_bits(wire_i8(weapon_scroll)));
}

/// A number that fits a signed byte comes back from the byte that carries it.
pub proof fn lemma_wire_i8(v: i32)
    requires
        -128 <= v <= 127,
    ensures
        wire_i8(v) == v,
        i8_from_bits(i8_bits(wire_i8(v))) as i32 == v,
{
}

/// A ping comes back as it went out.
pub proof fn lemma_ping_roundtrip(client_time_ms: u64)
    ensures
        spec_decode_ping(ping_frame(client_time_ms)) == Ok::<
            ClientMsgView,
            crate::types::DecodeError,
        >(ClientMsgView::Ping { client_time_ms }),
        ping_frame(client_time_ms).len() == 9,
        ping_frame(client_time_ms)[0] == MSG_PING,
{
    let b = ping_frame(client_time_ms);
    lemma_u64_le_roundtrip(client_time_ms);
    assert(b.subrange(1, 9) =~= u64_le(client_time_ms));
}

/// `decode(encode(m)) == m` for every client message that the wire can carry.
pub proof fn lemma_client_roundtrip(m: ClientMsgView)
    requires
        client_msg_fits(m),
    ensures
        spec_decode_client(client_frame(m)) == Ok::<ClientMsgView, crate::types::DecodeError>(m),
{
    match m {
        ClientMsgView::Hello { username } => {
            lemma_hello_roundtrip(username);
        },
        ClientMsgView::JoinRoom { room_id, map } => {
            lemma_join_room_roundtrip(room_id, map);
        },
        ClientMsgView::Input {
            seq,
            key_up,
            key_down,
            key_left,
            key_right,
            mouse_down,
            weapon_switch,
            weapon_scroll,
            aim_angle,
            facing_left,
        } => {
            lemma_input_roundtrip(
                seq,
                key_up,
                key_down,
                key_left,
                key_right,
                mouse_down,
                weapon_switch,
                weapon_scroll,
                aim_angle,
                facing_left,
            );
        },
        ClientMsgView::Ping { client_time_ms } => {
            lemma_ping_roundtrip(client_time_ms);
        },
    }
}

/// The nine weapon flags come back from the weapon bitset as they went in.
pub proof fn lemma_weapon_bits_roundtrip(w: Seq<bool>)
    requires
        w.len() == 9,
    ensures
        weapons_of(weapon_bits(w)) == w,
{
    let f: int = weapon_bits(w) as int;
    let r8: int = bit(w[8]);
    let r7: int = bit(w[7]) + 2 * r8;
    let r6: int = bit(w[6]) + 2 * r7;
    let r5: int = bit(w[5]) + 2 * r6;
    let r4: int = bit(w[4]) + 2 * r5;
    let r3: int = bit(w[3]) + 2 * r4;
    let r2: int = bit(w[2]) + 2 * r3;
    let r1: int = bit(w[1]) + 2 * r2;
    assert(f == bit(w[0]) + 2 * r1);
    assert(f / 2 == r1);
    assert(f / 4 == r2) by {
        assert(r1 / 2 == r2);
        assert(f / 4 == (f / 2) / 2);
    }
    assert(f / 8 == r3) by {
        assert(r2 / 2 == r3);
        assert(f / 8 == (f / 4) / 2);
    }
    assert(f / 16 == r4) by {
        assert(r3 / 2 == r4);
        assert(f / 16 == (f / 8) / 2);
    }
    assert(f / 32 == r5) by {
        assert(r4 / 2 == r5);
        assert(f / 32 == (f / 16) / 2);
    }
    assert(f / 64 == r6) by {
        assert(r5 / 2 == r6);
        assert(f / 64 == (f / 32) / 2);
    }
    assert(f / 128 == r7) by {
        assert(r6 / 2 == r7);
        assert(f / 128 == (f / 64) / 2);
    }
    assert(f / 256 == r8) by {
        assert(r7 / 2 == r8);
        assert(f / 256 == (f / 128) / 2);
    }
    assert(f / 1 == f);
    assert(weapons_of(weapon_bits(w)) =~= w);
}

/// What is read where a 16-bit value was written is that value.
pub proof fn lemma_at_u16(pre: Seq<u8>, v: u16, post: Seq<u8>)
    ensures
        at_u16(pre + u16_le(v) + post, pre.len() as int) == v,
{
    lemma_u16_le_roundtrip(v);
    assert((pre + u16_le(v) + post).subrange(pre.len() as int, pre.len() as int + 2) =~= u16_le(v));
}

/// What is read where a signed 16-bit value was written is that value.
pub proof fn lemma_at_i16(pre: Seq<u8>, v: i16, post: Seq<u8>)
    ensures
        at_i16(pre + i16_le(v) + post, pre.len() as int) == v,
{
    lemma_at_u16(pre, i16_bits(v), post);
}

/// What is read where a 32-bit value was written is that value.
pub proof fn lemma_at_u32(pre: Seq<u8>, v: u32, post: Seq<u8>)
    ensures
        at_u32(pre + u32_le(v) + post, pre.len() as int) == v,
{
    lemma_u32_le_roundtrip(v);
    assert((pre + u32_le(v) + post).subrange(pre.len() as int, pre.len() as int + 4) =~= u32_le(v));
}

/// What is read where a 64-bit value was written is that value.
pub proof fn lemma_at_u64(pre: Seq<u8>, v: u64, post: Seq<u8>)
    ensures
        at_u64(pre + u64_le(v) + post, pre.len() as int) == v,
{
    lemma_u64_le_roundtrip(v);
    assert((pre + u64_le(v) + post).subrange(pre.len() as int, pre.len() as int + 8) =~= u64_le(v));
}

/// Whether a player record carries `s` as it is: nine weapons and nine
/// ammunition counts, health, armor and ammunition within 16 signed bits,
/// the weapon in hand and the fire cooldown within a byte.
pub open spec fn player_fits(s: PlayerSnapshotView) -> bool {
    &&& s.weapons.len() == 9
    &&& s.ammo.len() == 9
    &&& -32768 <= s.health <= 32767
    &&& -32768 <= s.armor <= 32767
    &&& 0 <= s.current_weapon <= 255
    &&& 0 <= s.fire_cooldown <= 255
    &&& forall|i: int| 0 <= i < 9 ==> -32768 <= #[trigger] s.ammo[i] <= 32767
}

/// The first 36 bytes of a player record: everything before the ammunition.
pub open spec fn player_head(s: PlayerSnapshotView) -> Seq<u8> {
    u64_le(s.id) + u32_le(s.x) + u32_le(s.y) + u32_le(s.vx) + u32_le(s.vy) + u32_le(s.aim_angle)
        + i16_le(sat_i16(s.health)) + i16_le(sat_i16(s.armor)) + seq![
        low_byte(s.current_weapon),
        sat_u8(s.fire_cooldown),
    ] + u16_le(weapon_bits(s.weapons))
}

/// The last 9 bytes of a player record: the sequence number and the flags.
pub open spec fn player_tail(s: PlayerSnapshotView) -> Seq<u8> {
    u64_le(s.last_input_seq) + seq![
        player_flags(
            s.facing_left,
            s.crouch,
            s.dead,
            s.key_left,
            s.key_right,
            s.key_up,
            s.key_down,
        ),
    ]
}

/// A player record is its head, its ammunition and its tail.
pub proof fn lemma_player_record_parts(s: PlayerSnapshotView)
    ensures
        player_record(s) == player_head(s) + ammo_bytes(s.ammo, 9) + player_tail(s),
        player_head(s).len() == 36,
        ammo_bytes(s.ammo, 9).len() == 18,
        player_tail(s).len() == 9,
{
    lemma_ammo_bytes_len(s.ammo, 9);
    assert(player_record(s) =~= player_head(s) + ammo_bytes(s.ammo, 9) + player_tail(s));
}

/// Concatenation does not care how it is bracketed.
pub proof fn lemma_assoc(a: Seq<u8>, b: Seq<u8>, c: Seq<u8>)
    ensures
        (a + b) + c == a + (b + c),
{
    assert((a + b) + c =~= a + (b + c));
}

/// The fields of the head of a player record come back as they went in.
pub proof fn lemma_player_head_roundtrip(s: PlayerSnapshotView, rest: Seq<u8>)
    requires
        player_fits(s),
    ensures
        ({
            let b = player_head(s) + rest;
            &&& at_u64(b, 0) == s.id
            &&& at_u32(b, 8) == s.x
            &&& at_u32(b, 12) == s.y
            &&& at_u32(b, 16) == s.vx
            &&& at_u32(b, 20) == s.vy
            &&& at_u32(b, 24) == s.aim_angle
            &&& at_i16(b, 28) as i32 == s.health
            &&& at_i16(b, 30) as i32 == s.armor
            &&& b[32] as i32 == s.current_weapon
            &&& b[33] as i32 == s.fire_cooldown
            &&& weapons_of(at_u16(b, 34)) == s.weapons
        }),
{
    let b = player_head(s) + rest;
    lemma_weapon_bits_roundtrip(s.weapons);
    let f0 = u64_le(s.id);
    let f1 = u32_le(s.x);
    let f2 = u32_le(s.y);
    let f3 = u32_le(s.vx);
    let f4 = u32_le(s.vy);
    let f5 = u32_le(s.aim_angle);
    let f6 = i16_le(sat_i16(s.health));
    let f7 = i16_le(sat_i16(s.armor));
    let f8 = seq![low_byte(s.current_weapon), sat_u8(s.fire_cooldown)];
    let f9 = u16_le(weapon_bits(s.weapons));
    let p0 = Seq::<u8>::empty();
    let p1 = p0 + f0;
    let p2 = p1 + f1;
    let p3 = p2 + f2;
    let p4 = p3 + f3;
    let p5 = p4 + f4;
    let p6 = p5 + f5;
    let p7 = p6 + f6;
    let p8 = p7 + f7;
    let p9 = p8 + f8;
    let r9 = rest;
    assert(p1 =~= f0);
    assert(b == p9 + f9 + r9);
    lemma_at_u16(p9, weapon_bits(s.weapons), r9);
    let r8 = f9 + r9;
    lemma_assoc(p9, f9, r9);
    assert(b == p8 + f8 + r8);
    assert(b[32] == f8[0]);
    assert(b[33] == f8[1]);
    let r7 = f8 + r8;
    lemma_assoc(p8, f8, r8);
    assert(b == p7 + f7 + r7);
    lemma_at_i16(p7, sat_i16(s.armor), r7);
    let r6 = f7 + r7;
    lemma_assoc(p7, f7, r7);
    assert(b == p6 + f6 + r6);
    lemma_at_i16(p6, sat_i16(s.health), r6);
    let r5 = f6 + r6;
    lemma_assoc(p6, f6, r6);
    assert(b == p5 + f5 + r5);
    lemma_at_u32(p5, s.aim_angle, r5);
    let r4 = f5 + r5;
    lemma_assoc(p5, f5, r5);
    assert(b == p4 + f4 + r4);
    lemma_at_u32(p4, s.vy, r4);
    let r3 = f4 + r4;
    lemma_assoc(p4, f4, r4);
    assert(b == p3 + f3 + r3);
    lemma_at_u32(p3, s.vx, r3);
    let r2 = f3 + r3;
    lemma_assoc(p3, f3, r3);
    assert(b == p2 + f2 + r2);
    lemma_at_u32(p2, s.y, r2);
    let r1 = f2 + r2;
    lemma_assoc(p2, f2, r2);
    assert(b == p1 + f1 + r1);
    lemma_at_u32(p1, s.x, r1);
    let r0 = f1 + r1;
    lemma_assoc(p1, f1, r1);
    assert(b == p0 + f0 + r0);
    lemma_at_u64(p0, s.id, r0);
}

/// Each of the ammunition counts that were written is read where it was written.
pub proof fn lemma_ammo_at(pre: Seq<u8>, ammo: Seq<i32>, n: nat, post: Seq<u8>, j: int)
    requires
        0 <= j < n,
    ensures
        at_i16(pre + ammo_bytes(ammo, n) + post, pre.len() + 2 * j) == sat_i16(ammo[j]),
    decreases n,
{
    let before = ammo_bytes(ammo, (n - 1) as nat);
    let last = i16_le(sat_i16(ammo[n - 1]));
    lemma_ammo_bytes_len(ammo, (n - 1) as nat);
    assert(ammo_bytes(ammo, n) == before + last);
    lemma_assoc(pre, before, last);
    if j == n - 1 {
        lemma_at_i16(pre + before, sat_i16(ammo[j]), post);
    } else {
        lemma_assoc(pre + before, last, post);
        lemma_ammo_at(pre, ammo, (n - 1) as nat, last + post, j);
    }
}

/// The ammunition counts of a player record come back as they went in.
pub proof fn lemma_player_ammo_roundtrip(pre: Seq<u8>, ammo: Seq<i32>, post: Seq<u8>)
    requires
        ammo.len() == 9,
        forall|i: int| 0 <= i < 9 ==> -32768 <= #[trigger] ammo[i] <= 32767,
    ensures
        ammo_at(pre + ammo_bytes(ammo, 9) + post, pre.len() as int) == ammo,
{
    lemma_ammo_at(pre, ammo, 9, post, 0);
    lemma_ammo_at(pre, ammo, 9, post, 1);
    lemma_ammo_at(pre, ammo, 9, post, 2);
    lemma_ammo_at(pre, ammo, 9, post, 3);
    lemma_ammo_at(pre, ammo, 9, post, 4);
    lemma_ammo_at(pre, ammo, 9, post, 5);
    lemma_ammo_at(pre, ammo, 9, post, 6);
    lemma_ammo_at(pre, ammo, 9, post, 7);
    lemma_ammo_at(pre, ammo, 9, post, 8);
    assert(ammo_at(pre + ammo_bytes(ammo, 9) + post, pre.len() as int) =~= ammo);
}

/// `decode(encode(p)) == p` for every player that a player record carries
/// as it is.
pub proof fn lemma_player_record_roundtrip(s: PlayerSnapshotView)
    requires
        player_fits(s),
    ensures
        spec_decode_player_record(player_record(s), 0) == Ok::<
            (PlayerSnapshotView, int),
            crate::types::DecodeError,
        >((s, 63)),
{
    let b = player_record(s);
    let head = player_head(s);
    let ammo = ammo_bytes(s.ammo, 9);
    let tail = player_tail(s);
    lemma_player_record_parts(s);
    lemma_player_head_roundtrip(s, ammo + tail);
    assert(b =~= head + (ammo + tail));
    lemma_player_ammo_roundtrip(head, s.ammo, tail);
    assert(b =~= (head + ammo) + u64_le(s.last_input_seq) + seq![
        player_flags(
            s.facing_left,
            s.crouch,
            s.dead,
            s.key_left,
            s.key_right,
            s.key_up,
            s.key_down,
        ),
    ]);
    lemma_at_u64(
        head + ammo,
        s.last_input_seq,
        seq![
            player_flags(
                s.facing_left,
                s.crouch,
                s.dead,
                s.key_left,
                s.key_right,
                s.key_up,
                s.key_down,
            ),
        ],
    );
    lemma_player_flags_roundtrip(
        s.facing_left,
        s.crouch,
        s.dead,
        s.key_left,
        s.key_right,
        s.key_up,
        s.key_down,
    );
    assert(b[62] == player_flags(
        s.facing_left,
        s.crouch,
        s.dead,
        s.key_left,
        s.key_right,
        s.key_up,
        s.key_down,
    ));
    let got = player_at(b, 0);
    assert(got.weapons == s.weapons);
    assert(got.ammo == s.ammo);
    assert(got == s);
}

} // verus!
