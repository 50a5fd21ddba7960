//! The bounded delivery channel, as the backpressure model.
//!
//! Decoded events flow to the consumer through a bounded first-in
//! first-out buffer.  The buffer never drops and never reorders: an offer
//! to a full buffer is refused and leaves it unchanged — the producer must
//! wait — and one read frees exactly one place.

use vstd::prelude::*;

use crate::types::event::Event;

verus! {

/// What an offer to the channel decides.
#[derive(Clone, Copy, Debug, PartialEq, Eq, Structural)]
pub enum SendOutcome {
    /// The event was appended.
    Accepted,
    /// The buffer is full; the producer must wait and offer again.
    MustWait,
}

/// A bounded FIFO buffer of events.
pub struct DeliveryQueue {
    /// The capacity fixed at construction; at least one.
    pub cap: usize,
    /// The buffered events, oldest first.
    pub items: Vec<Event>,
}

impl DeliveryQueue {
    /// The buffer never holds more than its capacity.
    pub open spec fn wf(self) -> bool {
        self.items@.len() <= self.cap && self.cap >= 1
    }

    /// An empty buffer of the given capacity.
    pub fn new(cap: usize) -> (r: Self)
        requires
            cap >= 1,
        ensures
            r.wf(),
            r.cap == cap,
            r.items@.len() == 0,
    {
        DeliveryQueue { cap, items: Vec::new() }
    }

    /// How many events are buffered.
    pub fn len(&self) -> (r: usize)
        ensures
            r == self.items@.len(),
    {
        self.items.len()
    }

    /// Offers one event: appended when a place is free, refused with the
    /// buffer left exactly as it was when full — the offer suspends, it
    /// never drops.
    pub fn try_send(&mut self, e: Event) -> (r: SendOutcome)
        requires
            old(self).wf(),
        ensures
            final(self).wf(),
            final(self).cap == old(self).cap,
            (final(self).items@, r) == spec_try_send(old(self).cap as int, old(self).items@, e),
    {
        if self.items.len() < self.cap {
            self.items.push(e);
            SendOutcome::Accepted
        } else {
            SendOutcome::MustWait
        }
    }

    /// Takes the oldest buffered event, if any: first in, first out.
    pub fn recv(&mut self) -> (r: Option<Event>)
        requires
            old(self).wf(),
        ensures
            final(self).wf(),
            final(self).cap == old(self).cap,
            (final(self).items@, r) == spec_recv(old(self).items@),
    {
        if self.items.len() == 0 {
            None
        } else {
            let e = self.items.remove(0);
            proof {
                assert(self.items@ =~= old(self).items@.skip(1));
            }
            Some(e)
        }
    }
}

/// The offer, at the specification level: append below capacity, refuse
/// unchanged at capacity.
pub open spec fn spec_try_send(cap: int, items: Seq<Event>, e: Event) -> (Seq<Event>, SendOutcome) {
    if items.len() < cap {
        (items.push(e), SendOutcome::Accepted)
    } else {
        (items, SendOutcome::MustWait)
    }
}

/// The read, at the specification level: take the oldest, if any.
pub open spec fn spec_recv(items: Seq<Event>) -> (Seq<Event>, Option<Event>) {
    if items.len() == 0 {
        (items, None)
    } else {
        (items.skip(1), Some(items[0]))
    }
}

/// Backpressure: with capacity `k` and `k` buffered events, the next
/// offer is refused and the buffer is left exactly as it was — nothing is
/// dropped — and after the consumer takes one event the same offer is
/// accepted, going to the back of the queue.
pub proof fn lemma_backpressure(cap: int, items: Seq<Event>, e: Event)
    requires
        1 <= cap,
        items.len() == cap,
    ensures
        spec_try_send(cap, items, e) == (items, SendOutcome::MustWait),
        spec_try_send(cap, spec_recv(items).0, e).1 == SendOutcome::Accepted,
        spec_try_send(cap, spec_recv(items).0, e).0 == spec_recv(items).0.push(e),
{
}

/// Delivery is first in, first out: after an accepted offer, the oldest
/// event is unchanged unless the buffer was empty, and reads return
/// events in offer order.
pub proof fn lemma_fifo_order(cap: int, items: Seq<Event>, e: Event)
    requires
        1 <= cap,
        items.len() < cap,
    ensures
        spec_try_send(cap, items, e).0 == items.push(e),
        items.len() > 0 ==> spec_recv(spec_try_send(cap, items, e).0).1 == Some(items[0]),
        items.len() == 0 ==> spec_recv(spec_try_send(cap, items, e).0).1 == Some(e),
{
    if items.len() > 0 {
        assert(items.push(e)[0] == items[0]);
    } else {
        assert(items.push(e)[0] == e);
    }
}

} // verus!
