//! Decoding of the frames that clients send.

use vstd::prelude::*;
use vstd::slice::slice_to_vec;
use vstd::utf8::{decode_utf8, encode_utf8_decode_utf8, valid_utf8};
use crate::constants::{MAX_USERNAME_LEN, MSG_HELLO, MSG_INPUT, MSG_JOIN_ROOM, MSG_PING};

use crate::frames::{bit, bit_set};
use crate::trusted::string_from_utf8;
use crate::types::{ClientMsg, ClientMsgView, DecodeError};
use crate::wire::{
    i16_from_bits, i16_of_bits, i64_from_bits, i64_of_bits, i8_from_bits, i8_of_bits, u16_from_le,
    u32_from_le, u64_from_le,
};

verus! {

/// The 16-bit value at `off`.
pub open spec fn at_u16(b: Seq<u8>, off: int) -> u16 {
    u16_from_le(b.subrange(off, off + 2))
}

/// The signed 16-bit value at `off`.
pub open spec fn at_i16(b: Seq<u8>, off: int) -> i16 {
    i16_from_bits(at_u16(b, off))
}

/// The 32-bit value at `off`.
pub open spec fn at_u32(b: Seq<u8>, off: int) -> u32 {
    u32_from_le(b.subrange(off, off + 4))
}

/// The 64-bit value at `off`.
pub open spec fn at_u64(b: Seq<u8>, off: int) -> u64 {
    u64_from_le(b.subrange(off, off + 8))
}

/// The signed 64-bit value at `off`.
pub open spec fn at_i64(b: Seq<u8>, off: int) -> i64 {
    i64_from_bits(at_u64(b, off))
}

/// The 16-bit value at `offset`, which the caller knows to be there.
pub(crate) fn get_u16(bytes: &[u8], offset: usize) -> (v: u16)
    requires
        offset + 2 <= bytes.len(),
    ensures
        v == at_u16(bytes@, offset as int),
{
    bytes[offset] as u16 + 256 * (bytes[offset + 1] as u16)
}

/// The signed 16-bit value at `offset`, which the caller knows to be there.
pub(crate) fn get_i16(bytes: &[u8], offset: usize) -> (v: i16)
    requires
        offset + 2 <= bytes.len(),
    ensures
        v == at_i16(bytes@, offset as int),
{
    i16_of_bits(get_u16(bytes, offset))
}

/// The 32-bit value at `offset`, which the caller knows to be there.
pub(crate) fn get_u32(bytes: &[u8], offset: usize) -> (v: u32)
    requires
        offset + 4 <= bytes.len(),
    ensures
        v == at_u32(bytes@, offset as int),
{
    bytes[offset] as u32 + 256 * (bytes[offset + 1] as u32) + 65536 * (bytes[offset + 2] as u32)
        + 16777216 * (bytes[offset + 3] as u32)
}

/// The 64-bit value at `offset`, which the caller knows to be there.
pub(crate) fn get_u64(bytes: &[u8], offset: usize) -> (v: u64)
    requires
        offset + 8 <= bytes.len(),
    ensures
        v == at_u64(bytes@, offset as int),
{
    let lo: u32 = get_u32(bytes, offset);
    let hi: u32 = get_u32(bytes, offset + 4);
    proof {
        let whole = bytes@.subrange(offset as int, offset + 8);
        assert(whole.subrange(0, 4) =~= bytes@.subrange(offset as int, offset + 4));
        assert(whole.subrange(4, 8) =~= bytes@.subrange(offset + 4, offset + 8));
    }
    lo as u64 + 0x1_0000_0000 * (hi as u64)
}

/// The signed 64-bit value at `offset`, which the caller knows to be there.
pub(crate) fn get_i64(bytes: &[u8], offset: usize) -> (v: i64)
    requires
        offset + 8 <= bytes.len(),
    ensures
        v == at_i64(bytes@, offset as int),
{
    i64_of_bits(get_u64(bytes, offset))
}

/// Whether `n` bytes lie at `offset`.
pub(crate) fn has_bytes(bytes: &[u8], offset: usize, n: usize) -> (b: bool)
    ensures
        b == (offset + n <= bytes.len()),
{
    offset <= bytes.len() && n <= bytes.len() - offset
}

/// Reads two bytes at `offset` as a little-endian value, if they are there.
pub fn read_u16(bytes: &[u8], offset: usize) -> (r: Result<u16, DecodeError>)
    ensures
        offset + 2 <= bytes@.len() ==> r == Ok::<u16, DecodeError>(at_u16(bytes@, offset as int)),
        offset + 2 > bytes@.len() ==> r == Err::<u16, DecodeError>(DecodeError::OutOfBounds),
{
    if !has_bytes(bytes, offset, 2) {
        return Err(DecodeError::OutOfBounds);
    }
    Ok(get_u16(bytes, offset))
}

/// Reads two bytes at `offset` as a signed little-endian value, if they are there.
pub fn read_i16(bytes: &[u8], offset: usize) -> (r: Result<i16, DecodeError>)
    ensures
        offset + 2 <= bytes@.len() ==> r == Ok::<i16, DecodeError>(at_i16(bytes@, offset as int)),
        offset + 2 > bytes@.len() ==> r == Err::<i16, DecodeError>(DecodeError::OutOfBounds),
{
    if !has_bytes(bytes, offset, 2) {
        return Err(DecodeError::OutOfBounds);
    }
    Ok(get_i16(bytes, offset))
}

/// Reads four bytes at `offset` as a little-endian value, if they are there.
/// This is how the bits of a single-precision number are read.
pub fn read_u32(bytes: &[u8], offset: usize) -> (r: Result<u32, DecodeError>)
    ensures
        offset + 4 <= bytes@.len() ==> r == Ok::<u32, DecodeError>(at_u32(bytes@, offset as int)),
        offset + 4 > bytes@.len() ==> r == Err::<u32, DecodeError>(DecodeError::OutOfBounds),
{
    if !has_bytes(bytes, offset, 4) {
        return Err(DecodeError::OutOfBounds);
    }
    Ok(get_u32(bytes, offset))
}

/// Reads eight bytes at `offset` as a little-endian value, if they are there.
pub fn read_u64(bytes: &[u8], offset: usize) -> (r: Result<u64, DecodeError>)
    ensures
        offset + 8 <= bytes@.len() ==> r == Ok::<u64, DecodeError>(at_u64(bytes@, offset as int)),
        offset + 8 > bytes@.len() ==> r == Err::<u64, DecodeError>(DecodeError::OutOfBounds),
{
    if !has_bytes(bytes, offset, 8) {
        return Err(DecodeError::OutOfBounds);
    }
    Ok(get_u64(bytes, offset))
}

/// Reads eight bytes at `offset` as a signed little-endian value, if they are there.
pub fn read_i64(bytes: &[u8], offset: usize) -> (r: Result<i64, DecodeError>)
    ensures
        offset + 8 <= bytes@.len() ==> r == Ok::<i64, DecodeError>(at_i64(bytes@, offset as int)),
        offset + 8 > bytes@.len() ==> r == Err::<i64, DecodeError>(DecodeError::OutOfBounds),
{
    if !has_bytes(bytes, offset, 8) {
        return Err(DecodeError::OutOfBounds);
    }
    Ok(get_i64(bytes, offset))
}

/// What reading `len` bytes at `off` as a string gives: the characters, or
/// the reason why there are none.
pub open spec fn spec_read_string(b: Seq<u8>, off: int, len: int) -> Result<Seq<char>, DecodeError> {
    if b.len() < off + len {
        Err(DecodeError::OutOfBounds)
    } else if !valid_utf8(b.subrange(off, off + len)) {
        Err(DecodeError::InvalidUtf8)
    } else {
        Ok(decode_utf8(b.subrange(off, off + len)))
    }
}

/// A decoded string seen as its characters.
pub open spec fn string_result_view(r: Result<String, DecodeError>) -> Result<
    Seq<char>,
    DecodeError,
> {
    match r {
        Ok(s) => Ok(s@),
        Err(e) => Err(e),
    }
}

/// Reads `len` bytes at `offset` as a UTF-8 string.
pub fn read_string(bytes: &[u8], offset: usize, len: usize) -> (r: Result<String, DecodeError>)
    ensures
        string_result_view(r) == spec_read_string(bytes@, offset as int, len as int),
{
    if !has_bytes(bytes, offset, len) {
        return Err(DecodeError::OutOfBounds);
    }
    let raw: Vec<u8> = slice_to_vec(&bytes[offset..offset + len]);
    match string_from_utf8(raw) {
        Ok(s) => {
            proof {
                encode_utf8_decode_utf8(s@);
            }
            Ok(s)
        },
        Err(e) => Err(DecodeError::from(e)),
    }
}

/// A decoded client message seen as its model.
pub open spec fn client_result_view(r: Result<ClientMsg, DecodeError>) -> Result<
    ClientMsgView,
    DecodeError,
> {
    match r {
        Ok(m) => Ok(m@),
        Err(e) => Err(e),
    }
}

/// What a hello frame decodes to. A name field of more than 32 bytes is refused.
pub open spec fn spec_decode_hello(b: Seq<u8>) -> Result<ClientMsgView, DecodeError> {
    if b.len() < 2 {
        Err(DecodeError::OutOfBounds)
    } else if b[1] > MAX_USERNAME_LEN || b.len() < 2 + b[1] {
        Err(DecodeError::OutOfBounds)
    } else {
        match spec_read_string(b, 2, b[1] as int) {
            Ok(username) => Ok(ClientMsgView::Hello { username }),
            Err(e) => Err(e),
        }
    }
}

/// What a join-room frame decodes to. A field of length zero means that the
/// client names no room, or no map.
pub open spec fn spec_decode_join_room(b: Seq<u8>) -> Result<ClientMsgView, DecodeError> {
    if b.len() < 3 {
        Err(DecodeError::OutOfBounds)
    } else if b.len() < 3 + b[1] + b[2] {
        Err(DecodeError::OutOfBounds)
    } else {
        let room = if b[1] > 0 {
            match spec_read_string(b, 3, b[1] as int) {
                Ok(s) => Ok(Some(s)),
                Err(e) => Err(e),
            }
        } else {
            Ok(None)
        };
        let map = if b[2] > 0 {
            match spec_read_string(b, 3 + b[1], b[2] as int) {
                Ok(s) => Ok(Some(s)),
                Err(e) => Err(e),
            }
        } else {
            Ok(None)
        };
        match (room, map) {
            (Err(e), _) => Err(e),
            (Ok(_), Err(e)) => Err(e),
            (Ok(room_id), Ok(map)) => Ok(ClientMsgView::JoinRoom { room_id, map }),
        }
    }
}

/// What an input frame decodes to.
pub open spec fn spec_decode_input(b: Seq<u8>) -> Result<ClientMsgView, DecodeError> {
    if b.len() < 16 {
        Err(DecodeError::OutOfBounds)
    } else {
        Ok(
            ClientMsgView::Input {
                seq: at_u64(b, 1),
                key_up: bit_set(b[13] as int, 1),
                key_down: bit_set(b[13] as int, 2),
                key_left: bit_set(b[13] as int, 4),
                key_right: bit_set(b[13] as int, 8),
                mouse_down: bit_set(b[13] as int, 16),
                weapon_switch: i8_from_bits(b[14]) as i32,
                weapon_scroll: i8_from_bits(b[15]) as i32,
                aim_angle: at_u32(b, 9),
                facing_left: bit_set(b[13] as int, 32),
            },
        )
    }
}

/// What a ping frame decodes to.
pub open spec fn spec_decode_ping(b: Seq<u8>) -> Result<ClientMsgView, DecodeError> {
    if b.len() < 9 {
        Err(DecodeError::OutOfBounds)
    } else {
        Ok(ClientMsgView::Ping { client_time_ms: at_u64(b, 1) })
    }
}

/// What a frame from a client decodes to: by its first byte a hello, a
/// join-room, an input or a ping, or the error that says why not.
pub open spec fn spec_decode_client(b: Seq<u8>) -> Result<ClientMsgView, DecodeError> {
    if b.len() == 0 {
        Err(DecodeError::Empty)
    } else if b[0] == MSG_HELLO {
        spec_decode_hello(b)
    } else if b[0] == MSG_JOIN_ROOM {
        spec_decode_join_room(b)
    } else if b[0] == MSG_INPUT {
        spec_decode_input(b)
    } else if b[0] == MSG_PING {
        spec_decode_ping(b)
    } else {
        Err(DecodeError::UnknownType(b[0]))
    }
}

/// Whether the bit of `weight` (a power of two) is set in `v`.
pub(crate) fn flag(v: u8, weight: u8) -> (b: bool)
    requires
        weight > 0,
    ensures
        b == bit_set(v as int, weight as int),
{
    (v / weight) % 2 == 1
}

fn decode_hello(bytes: &[u8]) -> (r: Result<ClientMsg, DecodeError>)
    ensures
        client_result_view(r) == spec_decode_hello(bytes@),
{
    if bytes.len() < 2 {
        return Err(DecodeError::OutOfBounds);
    }
    let name_len: usize = bytes[1] as usize;
    if name_len > MAX_USERNAME_LEN || bytes.len() < 2 + name_len {
        return Err(DecodeError::OutOfBounds);
    }
    match read_string(bytes, 2, name_len) {
        Ok(username) => Ok(ClientMsg::Hello { username }),
        Err(e) => Err(e),
    }
}

fn decode_join_room(bytes: &[u8]) -> (r: Result<ClientMsg, DecodeError>)
    ensures
        client_result_view(r) == spec_decode_join_room(bytes@),
{
    if bytes.len() < 3 {
        return Err(DecodeError::OutOfBounds);
    }
    let room_len: usize = bytes[1] as usize;
    let map_len: usize = bytes[2] as usize;
    let mut offset: usize = 3;
    if bytes.len() < offset + room_len + map_len {
        return Err(DecodeError::OutOfBounds);
    }
    let room_id: Option<String> = if room_len > 0 {
        match read_string(bytes, offset, room_len) {
            Ok(room) => {
                offset = offset + room_len;
                Some(room)
            },
            Err(e) => {
                return Err(e);
            },
        }
    } else {
        None
    };
    let map: Option<String> = if map_len > 0 {
        match read_string(bytes, offset, map_len) {
            Ok(name) => Some(name),
            Err(e) => {
                return Err(e);
            },
        }
    } else {
        None
    };
    Ok(ClientMsg::JoinRoom { room_id, map })
}

fn decode_input(bytes: &[u8]) -> (r: Result<ClientMsg, DecodeError>)
    ensures
        client_result_view(r) == spec_decode_input(bytes@),
{
    if bytes.len() < 16 {
        return Err(DecodeError::OutOfBounds);
    }
    let seq: u64 = get_u64(bytes, 1);
    let aim_angle: u32 = get_u32(bytes, 9);
    let flags: u8 = bytes[13];
    let weapon_switch: i32 = i8_of_bits(bytes[14]) as i32;
    let weapon_scroll: i32 = i8_of_bits(bytes[15]) as i32;
    Ok(
        ClientMsg::Input {
            seq,
            key_up: flag(flags, 0x01),
            key_down: flag(flags, 0x02),
            key_left: flag(flags, 0x04),
            key_right: flag(flags, 0x08),
            mouse_down: flag(flags, 0x10),
            weapon_switch,
            weapon_scroll,
            aim_angle,
            facing_left: flag(flags, 0x20),
        },
    )
}

fn decode_ping(bytes: &[u8]) -> (r: Result<ClientMsg, DecodeError>)
    ensures
        client_result_view(r) == spec_decode_ping(bytes@),
{
    if bytes.len() < 9 {
        return Err(DecodeError::OutOfBounds);
    }
    Ok(ClientMsg::Ping { client_time_ms: get_u64(bytes, 1) })
}

/// Decodes a frame that a client sent. An empty frame, an unknown tag, a
/// frame that ends too early, a user name of more than 32 bytes and a string
/// that is not UTF-8 are each refused with their error.
pub fn decode_client_message(bytes: &[u8]) -> (r: Result<ClientMsg, DecodeError>)
    ensures
        client_result_view(r) == spec_decode_client(bytes@),
{
    if bytes.len() == 0 {
        return Err(DecodeError::Empty);
    }
    let first: u8 = bytes[0];
    if first == MSG_HELLO {
        decode_hello(bytes)
    } else if first == MSG_JOIN_ROOM {
        decode_join_room(bytes)
    } else if first == MSG_INPUT {
        decode_input(bytes)
    } else if first == MSG_PING {
        decode_ping(bytes)
    } else {
        Err(DecodeError::UnknownType(first))
    }
}

} // verus!
