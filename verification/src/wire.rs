//! Little-endian primitives of the wire format: what each integer looks like
//! as bytes, and the functions that append and read them.

use vstd::prelude::*;

verus! {

/// The two little-endian bytes of `v`.
pub open spec fn u16_le(v: u16) -> Seq<u8> {
    seq![(v % 256) as u8, (v / 256) as u8]
}

/// The four little-endian bytes of `v`.
pub open spec fn u32_le(v: u32) -> Seq<u8> {
    seq![
        (v % 256) as u8,
        (v / 256 % 256) as u8,
        (v / 65536 % 256) as u8,
        (v / 16777216) as u8,
    ]
}

/// The eight little-endian bytes of `v`.
pub open spec fn u64_le(v: u64) -> Seq<u8> {
    u32_le((v % 0x1_0000_0000) as u32) + u32_le((v / 0x1_0000_0000) as u32)
}

/// The value whose little-endian bytes are `b[0]` and `b[1]`.
pub open spec fn u16_from_le(b: Seq<u8>) -> u16 {
    (b[0] + 256 * b[1]) as u16
}

/// The value whose little-endian bytes are `b[0]` to `b[3]`.
pub open spec fn u32_from_le(b: Seq<u8>) -> u32 {
    (b[0] + 256 * b[1] + 65536 * b[2] + 16777216 * b[3]) as u32
}

/// The value whose little-endian bytes are `b[0]` to `b[7]`.
pub open spec fn u64_from_le(b: Seq<u8>) -> u64 {
    (u32_from_le(b.subrange(0, 4)) + 0x1_0000_0000 * u32_from_le(b.subrange(4, 8))) as u64
}

/// Two's complement of an 8-bit signed value.
pub open spec fn i8_bits(v: i8) -> u8 {
    if v < 0 {
        (v + 256) as u8
    } else {
        v as u8
    }
}

/// The signed value that a byte stands for in two's complement.
pub open spec fn i8_from_bits(u: u8) -> i8 {
    if u >= 128 {
        (u - 256) as i8
    } else {
        u as i8
    }
}

/// Two's complement of a 16-bit signed value.
pub open spec fn i16_bits(v: i16) -> u16 {
    if v < 0 {
        (v + 65536) as u16
    } else {
        v as u16
    }
}

/// The signed value that 16 bits stand for in two's complement.
pub open spec fn i16_from_bits(u: u16) -> i16 {
    if u >= 32768 {
        (u - 65536) as i16
    } else {
        u as i16
    }
}

/// Two's complement of a 64-bit signed value.
pub open spec fn i64_bits(v: i64) -> u64 {
    if v < 0 {
        (v + 0x1_0000_0000_0000_0000) as u64
    } else {
        v as u64
    }
}

/// The signed value that 64 bits stand for in two's complement.
pub open spec fn i64_from_bits(u: u64) -> i64 {
    if u >= 0x8000_0000_0000_0000 {
        (u - 0x1_0000_0000_0000_0000) as i64
    } else {
        u as i64
    }
}

pub open spec fn i16_le(v: i16) -> Seq<u8> {
    u16_le(i16_bits(v))
}

pub open spec fn i64_le(v: i64) -> Seq<u8> {
    u64_le(i64_bits(v))
}

/// Reading back the bytes of a 16-bit value gives the value.
pub proof fn lemma_u16_le_roundtrip(v: u16)
    ensures
        u16_le(v).len() == 2,
        u16_from_le(u16_le(v)) == v,
{
}

/// Reading back the bytes of a 32-bit value gives the value.
pub proof fn lemma_u32_le_roundtrip(v: u32)
    ensures
        u32_le(v).len() == 4,
        u32_from_le(u32_le(v)) == v,
{
    let q1: int = v as int / 256;
    let q2: int = q1 / 256;
    let q3: int = q2 / 256;
    assert(v == 256 * q1 + v % 256);
    assert(q1 == 256 * q2 + q1 % 256);
    assert(q2 == 256 * q3 + q2 % 256);
    assert(q2 == v as int / 65536);
    assert(q3 == v as int / 16777216);
    assert(q3 < 256);
}

/// Reading back the bytes of a 64-bit value gives the value.
pub proof fn lemma_u64_le_roundtrip(v: u64)
    ensures
        u64_le(v).len() == 8,
        u64_from_le(u64_le(v)) == v,
{
    let lo: u32 = (v % 0x1_0000_0000) as u32;
    let hi: u32 = (v / 0x1_0000_0000) as u32;
    lemma_u32_le_roundtrip(lo);
    lemma_u32_le_roundtrip(hi);
    assert(u64_le(v).subrange(0, 4) =~= u32_le(lo));
    assert(u64_le(v).subrange(4, 8) =~= u32_le(hi));
}

/// Writing the value that two bytes stand for gives the two bytes.
pub proof fn lemma_u16_from_le_roundtrip(b: Seq<u8>)
    requires
        b.len() == 2,
    ensures
        u16_le(u16_from_le(b)) == b,
{
    assert(u16_le(u16_from_le(b)) =~= b);
}

/// Writing the value that four bytes stand for gives the four bytes.
pub proof fn lemma_u32_from_le_roundtrip(b: Seq<u8>)
    requires
        b.len() == 4,
    ensures
        u32_le(u32_from_le(b)) == b,
{
    let v = u32_from_le(b);
    let r1: int = b[1] + 256 * b[2] + 65536 * b[3];
    let r2: int = b[2] + 256 * b[3];
    assert(v == b[0] + 256 * r1);
    assert(v / 256 == r1);
    assert(r1 == b[1] + 256 * r2);
    assert(r1 / 256 == r2);
    assert(v / 65536 == r2) by {
        assert(v / 65536 == (v / 256) / 256);
    }
    assert(r2 / 256 == b[3] as int);
    assert(v / 16777216 == b[3] as int) by {
        assert(v / 16777216 == (v / 65536) / 256);
    }
    assert(u32_le(v) =~= b);
}

/// A 64-bit value splits into its low and high halves, and these give it back.
proof fn lemma_u64_halves(lo: u32, hi: u32)
    ensures
        lo + 0x1_0000_0000 * hi <= u64::MAX,
        (lo + 0x1_0000_0000 * hi) % 0x1_0000_0000 == lo,
        (lo + 0x1_0000_0000 * hi) / 0x1_0000_0000 == hi,
{
}

/// Writing the value that eight bytes stand for gives the eight bytes.
pub proof fn lemma_u64_from_le_roundtrip(b: Seq<u8>)
    requires
        b.len() == 8,
    ensures
        u64_le(u64_from_le(b)) == b,
{
    let lo = b.subrange(0, 4);
    let hi = b.subrange(4, 8);
    let lo_v: u32 = u32_from_le(lo);
    let hi_v: u32 = u32_from_le(hi);
    lemma_u32_from_le_roundtrip(lo);
    lemma_u32_from_le_roundtrip(hi);
    lemma_u64_halves(lo_v, hi_v);
    let v: u64 = u64_from_le(b);
    assert(v == lo_v + 0x1_0000_0000 * hi_v);
    assert((v % 0x1_0000_0000) as u32 == lo_v);
    assert((v / 0x1_0000_0000) as u32 == hi_v);
    assert(u64_le(v) == u32_le(lo_v) + u32_le(hi_v));
    assert(lo + hi =~= b);
}

/// Signed values survive the trip through their two's complement.
pub proof fn lemma_signed_bits_roundtrip(a: i8, b: i16, c: i64)
    ensures
        i8_from_bits(i8_bits(a)) == a,
        i16_from_bits(i16_bits(b)) == b,
        i64_from_bits(i64_bits(c)) == c,
{
}

/// Bit patterns survive the trip through the signed value they stand for.
pub proof fn lemma_bits_signed_roundtrip(a: u8, b: u16, c: u64)
    ensures
        i8_bits(i8_from_bits(a)) == a,
        i16_bits(i16_from_bits(b)) == b,
        i64_bits(i64_from_bits(c)) == c,
{
}

/// Two's complement of `v`, computed without a truncating cast.
pub fn i8_to_bits(v: i8) -> (u: u8)
    ensures
        u == i8_bits(v),
{
    if v < 0 {
        (v as i16 + 256) as u8
    } else {
        v as u8
    }
}

/// The signed value of a byte in two's complement.
pub fn i8_of_bits(u: u8) -> (v: i8)
    ensures
        v == i8_from_bits(u),
{
    if u >= 128 {
        (u as i16 - 256) as i8
    } else {
        u as i8
    }
}

/// Two's complement of `v`, computed without a truncating cast.
pub fn i16_to_bits(v: i16) -> (u: u16)
    ensures
        u == i16_bits(v),
{
    if v < 0 {
        (v as i32 + 65536) as u16
    } else {
        v as u16
    }
}

/// The signed value of 16 bits in two's complement.
pub fn i16_of_bits(u: u16) -> (v: i16)
    ensures
        v == i16_from_bits(u),
{
    if u >= 32768 {
        (u as i32 - 65536) as i16
    } else {
        u as i16
    }
}

/// Two's complement of `v`, computed without a truncating cast.
pub fn i64_to_bits(v: i64) -> (u: u64)
    ensures
        u == i64_bits(v),
{
    if v < 0 {
        (v as i128 + 0x1_0000_0000_0000_0000) as u64
    } else {
        v as u64
    }
}

/// The signed value of 64 bits in two's complement.
pub fn i64_of_bits(u: u64) -> (v: i64)
    ensures
        v == i64_from_bits(u),
{
    if u >= 0x8000_0000_0000_0000 {
        (u as i128 - 0x1_0000_0000_0000_0000) as i64
    } else {
        u as i64
    }
}

/// A sink for encoded bytes. Implementors append and never rewrite.
pub trait BinaryWriter {
    /// Everything written so far, in order.
    spec fn written(&self) -> Seq<u8>;

    fn put_u8(&mut self, v: u8)
        ensures
            final(self).written() == old(self).written().push(v),
    ;

    fn put_slice(&mut self, slice: &[u8])
        ensures
            final(self).written() == old(self).written() + slice@,
    ;
}

impl BinaryWriter for Vec<u8> {
    open spec fn written(&self) -> Seq<u8> {
        self@
    }

    fn put_u8(&mut self, v: u8) {
        self.push(v);
    }

    fn put_slice(&mut self, slice: &[u8]) {
        self.extend_from_slice(slice);
    }
}

impl BinaryWriter for bytes::BytesMut {
    open spec fn written(&self) -> Seq<u8> {
        crate::trusted::bytes_mut_contents(*self)
    }

    fn put_u8(&mut self, v: u8) {
        crate::trusted::bytes_mut_put_u8(self, v);
    }

    fn put_slice(&mut self, slice: &[u8]) {
        crate::trusted::bytes_mut_put_slice(self, slice);
    }
}

pub fn write_u16<W: BinaryWriter>(out: &mut W, v: u16)
    ensures
        final(out).written() == old(out).written() + u16_le(v),
{
    out.put_u8((v % 256) as u8);
    out.put_u8((v / 256) as u8);
    assert(out.written() =~= old(out).written() + u16_le(v));
}

pub fn write_i16<W: BinaryWriter>(out: &mut W, v: i16)
    ensures
        final(out).written() == old(out).written() + i16_le(v),
{
    write_u16(out, i16_to_bits(v));
}

pub fn write_u32<W: BinaryWriter>(out: &mut W, v: u32)
    ensures
        final(out).written() == old(out).written() + u32_le(v),
{
    out.put_u8((v % 256) as u8);
    out.put_u8((v / 256 % 256) as u8);
    out.put_u8((v / 65536 % 256) as u8);
    out.put_u8((v / 16777216) as u8);
    assert(out.written() =~= old(out).written() + u32_le(v));
}

pub fn write_u64<W: BinaryWriter>(out: &mut W, v: u64)
    ensures
        final(out).written() == old(out).written() + u64_le(v),
{
    write_u32(out, (v % 0x1_0000_0000) as u32);
    write_u32(out, (v / 0x1_0000_0000) as u32);
    assert(out.written() =~= old(out).written() + u64_le(v));
}

pub fn write_i64<W: BinaryWriter>(out: &mut W, v: i64)
    ensures
        final(out).written() == old(out).written() + i64_le(v),
{
    write_u64(out, i64_to_bits(v));
}

pub fn push_u16(out: &mut Vec<u8>, v: u16)
    ensures
        final(out)@ == old(out)@ + u16_le(v),
{
    write_u16(out, v);
}

pub fn push_i16(out: &mut Vec<u8>, v: i16)
    ensures
        final(out)@ == old(out)@ + i16_le(v),
{
    write_i16(out, v);
}

pub fn push_u32(out: &mut Vec<u8>, v: u32)
    ensures
        final(out)@ == old(out)@ + u32_le(v),
{
    write_u32(out, v);
}

pub fn push_u64(out: &mut Vec<u8>, v: u64)
    ensures
        final(out)@ == old(out)@ + u64_le(v),
{
    write_u64(out, v);
}

pub fn push_i64(out: &mut Vec<u8>, v: i64)
    ensures
        final(out)@ == old(out)@ + i64_le(v),
{
    write_i64(out, v);
}

} // verus!
