use vstd::prelude::*;

verus! {

// The pool's concurrency limiter: a semaphore with as many permits as the
// pool has connection slots. Every blocking closure holds one permit for
// its whole run, so the number of closures in flight can never exceed the
// pool size — no caller is granted permission to wait on a connection
// slot that structurally cannot exist.

/// A counting semaphore.
pub struct Limiter {
    capacity: usize,
    available: usize,
}

impl Limiter {
    /// A limiter never hands out more permits than its capacity.
    pub open spec fn wf(&self) -> bool {
        self.available() <= self.capacity()
    }

    pub closed spec fn capacity(&self) -> usize {
        self.capacity
    }

    pub closed spec fn available(&self) -> usize {
        self.available
    }

    /// Permits currently held.
    pub open spec fn in_flight(&self) -> int {
        self.capacity() - self.available()
    }

    /// A fresh limiter with `capacity` permits, all free.
    pub fn new(capacity: usize) -> (r: Limiter)
        ensures
            r.wf(),
            r.capacity() == capacity,
            r.available() == capacity,
    {
        Limiter { capacity, available: capacity }
    }

    /// Take one permit if any is free; the grant is exactly the
    /// availability. A caller that must block retries until granted.
    pub fn try_acquire(&mut self) -> (granted: bool)
        requires
            old(self).wf(),
        ensures
            final(self).wf(),
            final(self).capacity() == old(self).capacity(),
            granted == (old(self).available() > 0),
            granted ==> final(self).available() == old(self).available() - 1,
            !granted ==> final(self).available() == old(self).available(),
    {
        if self.available > 0 {
            self.available = self.available - 1;
            true
        } else {
            false
        }
    }

    /// Return one permit. Only a held permit can be returned.
    pub fn release(&mut self)
        requires
            old(self).wf(),
            old(self).in_flight() > 0,
        ensures
            final(self).wf(),
            final(self).capacity() == old(self).capacity(),
            final(self).available() == old(self).available() + 1,
    {
        self.available = self.available + 1;
    }
}

} // verus!
