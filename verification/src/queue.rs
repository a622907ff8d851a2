//! The bounded lookahead queue: an ordered FIFO of prepared tracks with a
//! fixed capacity. Its only mutations are `enqueue` (append) and `dequeue`
//! (pop front), so `0 <= len <= capacity` holds at every point observable
//! between operations.

use vstd::prelude::*;
use crate::prepare::ReadyTrack;

verus! {

/// FIFO of prepared tracks, capacity fixed at construction.
pub struct PlaylistQueue {
    items: Vec<ReadyTrack>,
    capacity: usize,
}

impl View for PlaylistQueue {
    type V = Seq<ReadyTrack>;

    closed spec fn view(&self) -> Seq<ReadyTrack> {
        self.items@
    }
}

impl PlaylistQueue {
    /// The capacity the queue was built with.
    pub closed spec fn spec_capacity(self) -> nat {
        self.capacity as nat
    }

    /// Validity: the queue never holds more than its capacity.
    pub open spec fn wf(self) -> bool {
        &&& self@.len() <= self.spec_capacity()
        &&& self.spec_capacity() >= 1
    }

    pub fn new(capacity: usize) -> (q: Self)
        requires
            capacity >= 1,
        ensures
            q.wf(),
            q@ == Seq::<ReadyTrack>::empty(),
            q.spec_capacity() == capacity,
    {
        PlaylistQueue { items: Vec::new(), capacity }
    }

    pub fn len(&self) -> (n: usize)
        ensures
            n == self@.len(),
    {
        self.items.len()
    }

    pub fn capacity(&self) -> (n: usize)
        ensures
            n == self.spec_capacity(),
    {
        self.capacity
    }

    pub fn is_empty(&self) -> (b: bool)
        ensures
            b == (self@.len() == 0),
    {
        self.items.len() == 0
    }

    pub fn is_full(&self) -> (b: bool)
        ensures
            b == (self@.len() == self.spec_capacity()),
    {
        self.items.len() == self.capacity
    }

    /// Appends one prepared track; only called below capacity.
    pub fn enqueue(&mut self, t: ReadyTrack)
        requires
            old(self).wf(),
            old(self)@.len() < old(self).spec_capacity(),
        ensures
            final(self).wf(),
            final(self)@ == old(self)@.push(t),
            final(self).spec_capacity() == old(self).spec_capacity(),
    {
        self.items.push(t);
    }

    /// Pops the front: tracks leave in exactly the order they entered.
    pub fn dequeue(&mut self) -> (t: ReadyTrack)
        requires
            old(self).wf(),
            old(self)@.len() > 0,
        ensures
            final(self).wf(),
            t == old(self)@[0],
            final(self)@ == old(self)@.drop_first(),
            final(self).spec_capacity() == old(self).spec_capacity(),
    {
        let t = self.items.remove(0);
        proof {
            assert(self.items@ =~= old(self)@.drop_first());
        }
        t
    }
}

/// Queue length law: in every valid queue state, `0 <= len <= capacity`.
pub proof fn lemma_queue_len_bounded(q: PlaylistQueue)
    requires
        q.wf(),
    ensures
        0 <= q@.len() <= q.spec_capacity(),
{
}

} // verus!
