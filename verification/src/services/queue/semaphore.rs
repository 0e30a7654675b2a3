//! The permits that bound how many jobs are converted at once.

use vstd::prelude::*;

verus! {

/// How many jobs may be converted at the same time.
pub const MAX_CONCURRENT_JOBS: usize = 10;

/// A counting semaphore: at most `capacity` permits are out at any time.
pub struct Semaphore {
    capacity: usize,
    in_use: usize,
}

impl Semaphore {
    #[verifier::type_invariant]
    spec fn bounded(self) -> bool {
        self.in_use <= self.capacity
    }

    /// How many permits there are.
    pub closed spec fn capacity(self) -> nat {
        self.capacity as nat
    }

    /// How many permits are out.
    pub closed spec fn in_use(self) -> nat {
        self.in_use as nat
    }

    /// A semaphore with `capacity` permits, none of them out.
    pub fn new(capacity: usize) -> (r: Semaphore)
        ensures
            r.capacity() == capacity,
            r.in_use() == 0,
    {
        Semaphore { capacity, in_use: 0 }
    }

    /// How many permits are free. Never more permits are out than there are.
    pub fn available_permits(&self) -> (r: usize)
        ensures
            r == self.capacity() - self.in_use(),
            self.in_use() <= self.capacity(),
    {
        proof {
            use_type_invariant(self);
        }
        self.capacity - self.in_use
    }

    /// Takes a permit where one is free. Returns whether it took one.
    pub fn try_acquire(&mut self) -> (r: bool)
        ensures
            r == (old(self).in_use() < old(self).capacity()),
            final(self).capacity() == old(self).capacity(),
            final(self).in_use() == old(self).in_use() + if r {
                1nat
            } else {
                0nat
            },
            final(self).in_use() <= final(self).capacity(),
    {
        proof {
            use_type_invariant(&*self);
        }
        if self.in_use < self.capacity {
            self.in_use = self.in_use + 1;
            true
        } else {
            false
        }
    }

    /// Gives a permit back. With no permit out, nothing changes.
    pub fn release(&mut self)
        ensures
            final(self).capacity() == old(self).capacity(),
            final(self).in_use() == if old(self).in_use() > 0 {
                (old(self).in_use() - 1) as nat
            } else {
                0nat
            },
    {
        proof {
            use_type_invariant(&*self);
        }
        if self.in_use > 0 {
            self.in_use = self.in_use - 1;
        }
    }
}

} // verus!
