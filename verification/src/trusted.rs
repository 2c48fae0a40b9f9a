//! What this library takes on trust: the types and functions of other
//! libraries that it calls, each with the contract it is believed to keep.

use vstd::prelude::*;
use vstd::utf8::{encode_utf8, valid_utf8};
use crate::types::EffectEvent;

verus! {

/// The standard library's error for bytes that are not UTF-8. It is carried
/// through and never looked into.
#[verifier::external_type_specification]
#[verifier::external_body]
pub struct ExFromUtf8Error(std::string::FromUtf8Error);

/// `String::from_utf8`. It succeeds on exactly the byte vectors that are
/// valid UTF-8, and the string it returns consists of the bytes given.
#[verifier::external_body]
pub(crate) fn string_from_utf8(bytes: Vec<u8>) -> (r: Result<String, std::string::FromUtf8Error>)
    ensures
        r is Ok <==> valid_utf8(bytes@),
        r matches Ok(s) ==> encode_utf8(s@) == bytes@,
{
    String::from_utf8(bytes)
}


/// The ChaCha generator with eight rounds, of the crate `rand_chacha`. Its
/// state is never looked into.
#[verifier::external_type_specification]
#[verifier::external_body]
pub struct ExChaCha8Rng(rand_chacha::ChaCha8Rng);

/// `Rng::gen_range(0..n)` on a ChaCha generator: a number below `n`. The call
/// panics on an empty range, so `n` must not be 0.
#[verifier::external_body]
pub(crate) fn gen_index(rng: &mut rand_chacha::ChaCha8Rng, n: usize) -> (i: usize)
    requires
        n > 0,
    ensures
        i < n,
{
    rand::Rng::gen_range(rng, 0..n)
}

/// `SeedableRng::seed_from_u64` for the ChaCha generator: a generator whose
/// stream is fixed by `seed`.
#[verifier::external_body]
pub(crate) fn rng_from_seed(seed: u64) -> rand_chacha::ChaCha8Rng {
    rand::SeedableRng::seed_from_u64(seed)
}


/// A buffer of effect events: the vector of the crate `smallvec` that keeps
/// its first sixteen items inline.
#[verifier::external_body]
pub struct EventVec {
    inner: smallvec::SmallVec<[EffectEvent; 16]>,
}

/// The events that an event buffer holds, in the order in which they were pushed.
pub uninterp spec fn event_vec_items(v: EventVec) -> Seq<EffectEvent>;

/// `SmallVec::new`: a vector that holds nothing.
#[verifier::external_body]
pub(crate) fn event_vec_new() -> (v: EventVec)
    ensures
        event_vec_items(v) == Seq::<EffectEvent>::empty(),
{
    EventVec { inner: smallvec::SmallVec::new() }
}

/// `SmallVec::push`: the item goes behind the others.
#[verifier::external_body]
pub(crate) fn event_vec_push(v: &mut EventVec, event: EffectEvent)
    ensures
        event_vec_items(*final(v)) == event_vec_items(*old(v)).push(event),
{
    v.inner.push(event)
}

/// `SmallVec::as_slice`: the items in order.
#[verifier::external_body]
pub(crate) fn event_vec_as_slice(v: &EventVec) -> (s: &[EffectEvent])
    ensures
        s@ == event_vec_items(*v),
{
    v.inner.as_slice()
}

/// `SmallVec::clear`: nothing is left.
#[verifier::external_body]
pub(crate) fn event_vec_clear(v: &mut EventVec)
    ensures
        event_vec_items(*final(v)) == Seq::<EffectEvent>::empty(),
{
    v.inner.clear()
}

/// `SmallVec::append`: the items of `other` move behind those of `v`, in
/// their order, and `other` is left empty.
#[verifier::external_body]
pub(crate) fn event_vec_append(v: &mut EventVec, other: &mut EventVec)
    ensures
        event_vec_items(*final(v)) == event_vec_items(*old(v)) + event_vec_items(*old(other)),
        event_vec_items(*final(other)) == Seq::<EffectEvent>::empty(),
{
    v.inner.append(&mut other.inner)
}


/// `Uuid::new_v4().simple().to_string()` of the crate `uuid`: the 32
/// hexadecimal digits of a random id. Which id comes is left open.
#[verifier::external_body]
pub(crate) fn new_room_id() -> (id: String)
    ensures
        id@.len() == 32,
{
    uuid::Uuid::new_v4().simple().to_string()
}


/// The growable byte buffer of the crate `bytes`.
#[verifier::external_type_specification]
#[verifier::external_body]
pub struct ExBytesMut(bytes::BytesMut);

/// The bytes that a buffer holds, in order.
pub uninterp spec fn bytes_mut_contents(b: bytes::BytesMut) -> Seq<u8>;

/// `BufMut::put_u8` on a `BytesMut`, which grows as it must: the byte goes
/// behind the others.
#[verifier::external_body]
pub(crate) fn bytes_mut_put_u8(b: &mut bytes::BytesMut, v: u8)
    ensures
        bytes_mut_contents(*final(b)) == bytes_mut_contents(*old(b)).push(v),
{
    bytes::BufMut::put_u8(b, v)
}

/// `BufMut::put_slice` on a `BytesMut`, which grows as it must: the bytes go
/// behind the others, in their order.
#[verifier::external_body]
pub(crate) fn bytes_mut_put_slice(b: &mut bytes::BytesMut, slice: &[u8])
    ensures
        bytes_mut_contents(*final(b)) == bytes_mut_contents(*old(b)) + slice@,
{
    bytes::BufMut::put_slice(b, slice)
}

} // verus!
