//! The snapshot encoder and its ring of reusable buffers.

use vstd::prelude::*;
use crate::constants::{
    ITEM_RECORD_LEN, PLAYER_RECORD_LEN, PROJECTILE_RECORD_LEN, SNAPSHOT_BUFFER_RING,
    SNAPSHOT_HEADER_LEN,
};
use crate::encode::write_snapshot;
use crate::frames::{events_len, lemma_snapshot_frame_len, snapshot_frame};
use crate::types::{EffectEvent, ItemSnapshot, PlayerSnapshot, ProjectileSnapshot};

verus! {

/// Encodes snapshots into a ring of eight buffers, one after the other, so
/// that a frame handed out stays as it is while the next seven are encoded.
pub struct SnapshotEncoder {
    buffers: Vec<Vec<u8>>,
    next: usize,
}

/// The slot that is written `calls` snapshots after slot `cursor`.
pub open spec fn slot_after(cursor: nat, calls: nat) -> nat {
    (cursor + calls) % (SNAPSHOT_BUFFER_RING as nat)
}

/// Empties `buf` and writes one snapshot frame into it.
fn refill(
    buf: &mut Vec<u8>,
    tick: u64,
    server_time_ms: u64,
    players: &[PlayerSnapshot],
    items: &[ItemSnapshot],
    projectiles: &[ProjectileSnapshot],
    events: &[EffectEvent],
)
    ensures
        final(buf)@ == snapshot_frame(tick, server_time_ms, players.deep_view(), items@, projectiles@, events@),
        final(buf)@.len() == SNAPSHOT_HEADER_LEN + PLAYER_RECORD_LEN * players@.len()
            + ITEM_RECORD_LEN * items@.len() + PROJECTILE_RECORD_LEN * projectiles@.len()
            + events_len(events@),
{
    buf.clear();
    write_snapshot(buf, tick, server_time_ms, players, items, projectiles, events);
    proof {
        lemma_snapshot_frame_len(
            tick,
            server_time_ms,
            players.deep_view(),
            items@,
            projectiles@,
            events@,
        );
        assert(buf@ =~= snapshot_frame(
            tick,
            server_time_ms,
            players.deep_view(),
            items@,
            projectiles@,
            events@,
        ));
    }
}

impl SnapshotEncoder {
    #[verifier::type_invariant]
    spec fn inv(&self) -> bool {
        &&& self.buffers@.len() == SNAPSHOT_BUFFER_RING
        &&& self.next < SNAPSHOT_BUFFER_RING
    }

    /// The slot that the next snapshot will be written to.
    pub closed spec fn cursor(&self) -> nat {
        (self.next % SNAPSHOT_BUFFER_RING) as nat
    }

    /// The slot that the next snapshot will be written to is one of the eight.
    pub proof fn lemma_cursor_in_ring(&self)
        ensures
            self.cursor() < SNAPSHOT_BUFFER_RING,
    {
    }

    /// What slot `i` of the ring holds.
    pub closed spec fn slot(&self, i: int) -> Seq<u8> {
        self.buffers@[i]@
    }

    /// What the eight slots of the ring hold, in order.
    pub open spec fn slots(&self) -> Seq<Seq<u8>> {
        Seq::new(SNAPSHOT_BUFFER_RING as nat, |i: int| self.slot(i))
    }

    /// The slot that the next snapshot will be written to: one of the eight.
    pub fn next_slot(&self) -> (slot: usize)
        ensures
            slot == self.cursor(),
            slot < SNAPSHOT_BUFFER_RING,
    {
        proof {
            use_type_invariant(self);
        }
        self.next
    }

    /// An encoder with eight empty buffers, about to write the first.
    pub fn new() -> (enc: Self)
        ensures
            enc.cursor() == 0,
            forall|i: int| 0 <= i < SNAPSHOT_BUFFER_RING ==> enc.slot(i) == Seq::<u8>::empty(),
    {
        let mut buffers: Vec<Vec<u8>> = Vec::new();
        let mut i: usize = 0;
        while i < SNAPSHOT_BUFFER_RING
            invariant
                i <= SNAPSHOT_BUFFER_RING,
                buffers@.len() == i,
                forall|j: int| 0 <= j < i ==> (#[trigger] buffers@[j])@ == Seq::<u8>::empty(),
            decreases SNAPSHOT_BUFFER_RING - i,
        {
            buffers.push(Vec::new());
            i = i + 1;
        }
        SnapshotEncoder { buffers, next: 0 }
    }

    /// Encodes one snapshot into the ring's next buffer and hands out a view
    /// of it. The other seven buffers stay as they are, and the buffer written
    /// now is next written eight snapshots later: the slot written is one of
    /// the eight, and the next is the one after it, counted around the ring.
    pub fn encode_snapshot(
        &mut self,
        tick: u64,
        server_time_ms: u64,
        players: &[PlayerSnapshot],
        items: &[ItemSnapshot],
        projectiles: &[ProjectileSnapshot],
        events: &[EffectEvent],
    ) -> (out: &[u8])
        ensures
            out@ == snapshot_frame(tick, server_time_ms, players.deep_view(), items@, projectiles@, events@),
            out@.len() == SNAPSHOT_HEADER_LEN + PLAYER_RECORD_LEN * players@.len()
                + ITEM_RECORD_LEN * items@.len() + PROJECTILE_RECORD_LEN * projectiles@.len()
                + events_len(events@),
            final(self).slot(old(self).cursor() as int) == out@,
            forall|i: int|
                0 <= i < SNAPSHOT_BUFFER_RING && i != old(self).cursor() ==> final(self).slot(i)
                    == old(self).slot(i),
            final(self).slots() == old(self).slots().update(old(self).cursor() as int, out@),
            old(self).cursor() < SNAPSHOT_BUFFER_RING,
            final(self).cursor() == slot_after(old(self).cursor(), 1),
            final(self).cursor() < SNAPSHOT_BUFFER_RING,
    {
        proof {
            use_type_invariant(&*self);
        }
        let slot: usize = self.next;
        assert(slot < SNAPSHOT_BUFFER_RING);
        refill(&mut self.buffers[slot], tick, server_time_ms, players, items, projectiles, events);
        self.next = if slot + 1 == SNAPSHOT_BUFFER_RING {
            0
        } else {
            slot + 1
        };
        assert(self.slots() =~= old(self).slots().update(slot as int, self.buffers@[slot as int]@));
        self.buffers[slot].as_slice()
    }
}

impl Default for SnapshotEncoder {
    fn default() -> (enc: Self)
        ensures
            enc.cursor() == 0,
            forall|i: int| 0 <= i < SNAPSHOT_BUFFER_RING ==> enc.slot(i) == Seq::<u8>::empty(),
    {
        SnapshotEncoder::new()
    }
}

/// The ring never tears: counted from the snapshot that wrote a slot, the
/// calls that write that slot again are the eighth, the sixteenth and so on.
pub proof fn lemma_ring_reuse_distance(cursor: nat, calls: nat)
    requires
        cursor < SNAPSHOT_BUFFER_RING,
    ensures
        slot_after(cursor, calls) == cursor <==> calls % (SNAPSHOT_BUFFER_RING as nat) == 0,
        slot_after(cursor, calls + 1) == slot_after(slot_after(cursor, calls), 1),
{
}

} // verus!
