//! The buffer that collects the effect events of a tick.

use vstd::prelude::*;
use crate::trusted::{
    event_vec_append, event_vec_as_slice, event_vec_clear, event_vec_items, event_vec_new,
    event_vec_push, EventVec,
};
use crate::types::EffectEvent;

verus! {

impl View for EventVec {
    type V = Seq<EffectEvent>;

    open spec fn view(&self) -> Seq<EffectEvent> {
        event_vec_items(*self)
    }
}

impl EventVec {
    /// A buffer without events.
    pub fn new() -> (events: Self)
        ensures
            events@ == Seq::<EffectEvent>::empty(),
    {
        event_vec_new()
    }

    /// Puts an event behind the others.
    pub fn push(&mut self, event: EffectEvent)
        ensures
            final(self)@ == old(self)@.push(event),
    {
        event_vec_push(self, event);
    }

    /// The events in the order in which they were pushed.
    pub fn as_slice(&self) -> (events: &[EffectEvent])
        ensures
            events@ == self@,
    {
        event_vec_as_slice(self)
    }

    /// How many events the buffer holds.
    pub fn len(&self) -> (n: usize)
        ensures
            n == self@.len(),
    {
        event_vec_as_slice(self).len()
    }

    /// Empties the buffer.
    pub fn clear(&mut self)
        ensures
            final(self)@ == Seq::<EffectEvent>::empty(),
    {
        event_vec_clear(self);
    }

    /// Moves the events of `other` behind those of this buffer.
    pub fn append(&mut self, other: &mut EventVec)
        ensures
            final(self)@ == old(self)@ + old(other)@,
            final(other)@ == Seq::<EffectEvent>::empty(),
    {
        event_vec_append(self, other);
    }
}

} // verus!
