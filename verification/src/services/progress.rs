//! The progress hub: one bounded broadcast log of progress events, read by any
//! number of receivers.
//!
//! The hub numbers the events that it was sent from zero and keeps the newest
//! `capacity` of them. A receiver is a position in that numbering. A receiver
//! that falls behind the oldest kept event is told how many it missed and
//! continues with the oldest one.

use vstd::prelude::*;
use crate::models::job::{ProgressUpdate, ProgressUpdateView};

verus! {

/// How many events the hub keeps for slow receivers.
pub const PROGRESS_CHANNEL_CAPACITY: usize = 100;

/// The bounded broadcast log.
pub struct ProgressHub {
    capacity: usize,
    kept: Vec<ProgressUpdate>,
    dropped: u64,
    sent: Ghost<Seq<ProgressUpdateView>>,
}

/// A position in the log of a hub: the number of the next event to read.
pub struct ProgressReceiver {
    pub next: u64,
}

/// What a receiver finds at its position.
pub enum RecvOutcome {
    /// The event at the position; the receiver moved past it.
    Update(ProgressUpdate),
    /// The receiver had fallen behind and missed this many events; it moved to
    /// the oldest kept one.
    Lagged(u64),
    /// No event has been sent since the position.
    Empty,
}

impl ProgressHub {
    #[verifier::type_invariant]
    spec fn well_formed(self) -> bool {
        &&& self.capacity >= 1
        &&& self.kept.len() <= self.capacity
        &&& self.dropped + self.kept.len() == self.sent@.len()
        &&& self.sent@.len() <= u64::MAX
        &&& self.kept.deep_view() == self.sent@.subrange(
            self.dropped as int,
            self.sent@.len() as int,
        )
        &&& self.dropped as nat == Self::oldest_of(self.sent@.len(), self.capacity as nat)
    }

    /// Every event that the hub was sent, oldest first.
    pub closed spec fn history(self) -> Seq<ProgressUpdateView> {
        self.sent@
    }

    /// The number of the oldest event that a hub still keeps which was sent
    /// `len` events and keeps `capacity` of them: the hub drops an event only
    /// where it is full.
    pub open spec fn oldest_of(len: nat, capacity: nat) -> nat {
        if len > capacity {
            (len - capacity) as nat
        } else {
            0
        }
    }

    /// The number of the oldest event that the hub still keeps. It follows
    /// from how many events the hub was sent and how many it keeps.
    pub open spec fn oldest(self) -> nat {
        Self::oldest_of(self.history().len(), self.capacity())
    }

    /// How many events the hub keeps.
    pub closed spec fn capacity(self) -> nat {
        self.capacity as nat
    }

    /// An empty hub that keeps `capacity` events, at least one.
    pub fn new(capacity: usize) -> (r: ProgressHub)
        ensures
            r.history().len() == 0,
            r.oldest() == 0,
            r.capacity() == if capacity == 0 {
                1nat
            } else {
                capacity as nat
            },
    {
        let cap: usize = if capacity == 0 {
            1
        } else {
            capacity
        };
        let kept: Vec<ProgressUpdate> = Vec::new();
        assert(kept.deep_view() =~= Seq::<ProgressUpdateView>::empty().subrange(0, 0));
        ProgressHub { capacity: cap, kept, dropped: 0, sent: Ghost(Seq::empty()) }
    }

    /// The number of the oldest kept event after one more event was sent to a
    /// hub with the given history, oldest event and capacity.
    pub open spec fn oldest_after_send(len: nat, oldest: nat, capacity: nat) -> nat {
        if len + 1 - oldest > capacity {
            oldest + 1
        } else {
            oldest
        }
    }

    /// Appends an event to the log, dropping the oldest kept event when the hub
    /// is full. Returns whether the event was taken: a hub that has numbered
    /// `u64::MAX` events takes no more.
    pub fn send(&mut self, update: ProgressUpdate) -> (r: bool)
        ensures
            r == (old(self).history().len() < u64::MAX),
            r ==> final(self).history() == old(self).history().push(update@),
            r ==> final(self).oldest() == Self::oldest_after_send(
                old(self).history().len(),
                old(self).oldest(),
                old(self).capacity(),
            ),
            !r ==> final(self).history() == old(self).history() && final(self).oldest() == old(
                self,
            ).oldest(),
            final(self).capacity() == old(self).capacity(),
    {
        proof {
            use_type_invariant(&*self);
        }
        let total: u64 = self.total();
        if total == u64::MAX {
            return false;
        }
        let ghost before = self.kept.deep_view();
        let ghost update_view = update@;
        let mut hub = ProgressHub::new(1);
        std::mem::swap(self, &mut hub);
        proof {
            use_type_invariant(&hub);
        }
        let capacity: usize = hub.capacity;
        let ghost first = hub.dropped;
        let mut dropped: u64 = hub.dropped;
        let ghost sent = hub.sent@.push(update_view);
        let mut kept: Vec<ProgressUpdate> = hub.kept;
        if kept.len() == capacity {
            kept.remove(0);
            dropped = dropped + 1;
        }
        kept.push(update);
        proof {
            assert(kept.deep_view() =~= sent.subrange(dropped as int, sent.len() as int)) by {
                assert forall|i: int| 0 <= i < kept.len() implies kept.deep_view()[i]
                    == sent.subrange(dropped as int, sent.len() as int)[i] by {
                    if dropped == first {
                        if i < before.len() {
                            assert(kept.deep_view()[i] == before[i]);
                        }
                    } else {
                        if i < before.len() - 1 {
                            assert(kept.deep_view()[i] == before[i + 1]);
                        }
                    }
                }
            }
        }
        *self = ProgressHub { capacity, kept, dropped, sent: Ghost(sent) };
        true
    }

    /// How many events the hub was sent. The hub keeps the newest of them, at
    /// most `capacity`.
    pub fn total(&self) -> (r: u64)
        ensures
            r == self.history().len(),
            self.capacity() >= 1,
            self.oldest() <= self.history().len() <= self.oldest() + self.capacity(),
    {
        proof {
            use_type_invariant(self);
        }
        self.dropped + (self.kept.len() as u64)
    }

    /// A receiver that sees the events sent from now on, and none of the
    /// earlier ones.
    pub fn subscribe(&self) -> (r: ProgressReceiver)
        ensures
            r.next == self.history().len(),
    {
        ProgressReceiver { next: self.total() }
    }

    /// Reads the event at the receiver's position.
    pub fn recv(&self, rx: &mut ProgressReceiver) -> (r: RecvOutcome)
        ensures
            old(rx).next < self.oldest() ==> (r matches RecvOutcome::Lagged(n) && n
                == self.oldest() - old(rx).next && final(rx).next == self.oldest()),
            self.oldest() <= old(rx).next < self.history().len() ==> (r matches RecvOutcome::Update(
                u,
            ) && u@ == self.history()[old(rx).next as int] && final(rx).next == old(rx).next + 1),
            old(rx).next >= self.history().len() ==> r is Empty && final(rx).next == old(rx).next,
    {
        proof {
            use_type_invariant(self);
        }
        if rx.next < self.dropped {
            let missed: u64 = self.dropped - rx.next;
            rx.next = self.dropped;
            return RecvOutcome::Lagged(missed);
        }
        let offset: u64 = rx.next - self.dropped;
        if offset < self.kept.len() as u64 {
            let update = self.kept[offset as usize].copy();
            assert(self.kept.deep_view()[offset as int] == self.kept[offset as int]@);
            rx.next = rx.next + 1;
            RecvOutcome::Update(update)
        } else {
            RecvOutcome::Empty
        }
    }
}

} // verus!
