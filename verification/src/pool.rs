//! Permit pool: the counting admission-control primitive that bounds how
//! many worker processes run at once.  The pool holds a fixed capacity and a
//! count of currently available permits; a permit is taken by `try_acquire`
//! and given back by `release`, and the saturation probe is a pure read.

use vstd::prelude::*;

verus! {

/// Configured concurrency ceiling, fixed at construction.
pub struct ProcessCount {
    count: usize,
}

impl ProcessCount {
    /// The configured ceiling.
    pub closed spec fn spec_count(&self) -> usize {
        self.count
    }

    pub fn new(count: usize) -> (r: Self)
        ensures
            r.spec_count() == count,
    {
        ProcessCount { count }
    }
}

/// Admission-control pool with a fixed capacity and a live count of
/// available permits.  Outstanding permits are `capacity - available`.
pub struct PermitPool {
    capacity: usize,
    available: usize,
}

impl PermitPool {
    /// The fixed capacity the pool was created with.
    pub closed spec fn spec_capacity(&self) -> usize {
        self.capacity
    }

    /// How many permits are currently available.
    pub closed spec fn spec_available(&self) -> usize {
        self.available
    }

    /// How many permits are currently issued and not yet released.
    pub open spec fn spec_outstanding(&self) -> int {
        self.spec_capacity() - self.spec_available()
    }

    /// Pool invariant: never more outstanding permits than the capacity.
    pub open spec fn wf(&self) -> bool {
        self.spec_available() <= self.spec_capacity()
    }

    /// A fresh pool has its whole capacity available.
    pub fn new(limit: ProcessCount) -> (r: Self)
        ensures
            r.wf(),
            r.spec_capacity() == limit.spec_count(),
            r.spec_available() == limit.spec_count(),
    {
        PermitPool { capacity: limit.count, available: limit.count }
    }

    /// Takes a permit when one is available; otherwise leaves the pool
    /// unchanged.  Admission never fails outright: a caller that gets
    /// `false` simply waits for a slot to free.
    pub fn try_acquire(&mut self) -> (r: bool)
        requires
            old(self).wf(),
        ensures
            final(self).wf(),
            final(self).spec_capacity() == old(self).spec_capacity(),
            r == (old(self).spec_available() > 0),
            r ==> final(self).spec_available() == old(self).spec_available() - 1,
            !r ==> final(self).spec_available() == old(self).spec_available(),
    {
        if self.available > 0 {
            self.available = self.available - 1;
            true
        } else {
            false
        }
    }

    /// Gives an issued permit back.  Callers release a permit exactly once,
    /// so there is always an outstanding permit to return.
    pub fn release(&mut self)
        requires
            old(self).wf(),
            old(self).spec_outstanding() > 0,
        ensures
            final(self).wf(),
            final(self).spec_capacity() == old(self).spec_capacity(),
            final(self).spec_available() == old(self).spec_available() + 1,
    {
        self.available = self.available + 1;
    }

    /// Advisory pressure probe: true exactly when no permit is available.
    /// A shared borrow of the pool, so the probe cannot change its state,
    /// and two probes with no acquire or release between them agree.
    pub fn is_saturated(&self) -> (r: bool)
        ensures
            r == (self.spec_available() == 0),
    {
        self.available == 0
    }
}

/// The pool invariant bounds the issued permits by the capacity: however
/// many requests are in flight, no more than `capacity` permits are out.
pub proof fn lemma_outstanding_bounded(p: PermitPool)
    requires
        p.wf(),
    ensures
        0 <= p.spec_outstanding() <= p.spec_capacity(),
{
}

/// The saturation probe is a function of the pool state alone: pools in
/// the same state answer the probe the same way.
pub proof fn lemma_probe_deterministic(p: PermitPool, q: PermitPool)
    requires
        p.spec_available() == q.spec_available(),
    ensures
        (p.spec_available() == 0) == (q.spec_available() == 0),
{
}

} // verus!
