//! The engine gateway: the explicitly constructed service object holding
//! the request deadline and the permit pool.  It is created once by the
//! composition root and passed to every call site; the pool's counter is
//! touched only through its own acquire and release operations.

use vstd::prelude::*;
use crate::pool::PermitPool;
use crate::pool::ProcessCount;

verus! {

/// The gateway configuration and admission state: a wall-clock deadline in
/// milliseconds and the pool bounding concurrent engine processes.
pub struct Graphviz {
    timeout_ms: u64,
    pool: PermitPool,
}

impl Graphviz {
    /// The configured deadline, in milliseconds.
    pub closed spec fn spec_timeout_ms(&self) -> u64 {
        self.timeout_ms
    }

    /// The gateway's permit pool.
    pub closed spec fn spec_pool(&self) -> PermitPool {
        self.pool
    }

    /// Well-formed gateway: a positive deadline and a well-formed pool.
    pub open spec fn wf(&self) -> bool {
        self.spec_timeout_ms() > 0 && self.spec_pool().wf()
    }

    /// Builds the gateway from its configuration surface: a positive
    /// concurrency ceiling and a positive, non-zero deadline.
    pub fn new(timeout_ms: u64, limit: ProcessCount) -> (r: Self)
        requires
            timeout_ms > 0,
            limit.spec_count() > 0,
        ensures
            r.wf(),
            r.spec_timeout_ms() == timeout_ms,
            r.spec_pool().spec_capacity() == limit.spec_count(),
            r.spec_pool().spec_available() == limit.spec_count(),
    {
        Graphviz { timeout_ms, pool: PermitPool::new(limit) }
    }

    /// The configured deadline, for the task that arms the timer.
    pub fn timeout_millis(&self) -> (r: u64)
        ensures
            r == self.spec_timeout_ms(),
    {
        self.timeout_ms
    }

    /// Advisory pressure probe: true exactly when no permit is available.
    /// A shared borrow, so the probe cannot change the gateway's state.
    pub fn is_rate_limited(&self) -> (r: bool)
        ensures
            r == (self.spec_pool().spec_available() == 0),
    {
        self.pool.is_saturated()
    }

    /// Takes a permit for one request when a slot is free; a request that
    /// gets `false` stays pending and tries again when a slot frees.
    pub fn try_admit(&mut self) -> (r: bool)
        requires
            old(self).wf(),
        ensures
            final(self).wf(),
            final(self).spec_timeout_ms() == old(self).spec_timeout_ms(),
            final(self).spec_pool().spec_capacity() == old(self).spec_pool().spec_capacity(),
            r == (old(self).spec_pool().spec_available() > 0),
            r ==> final(self).spec_pool().spec_available() == old(self).spec_pool().spec_available()
                - 1,
            !r ==> final(self).spec_pool().spec_available() == old(
                self,
            ).spec_pool().spec_available(),
    {
        self.pool.try_acquire()
    }

    /// Gives one request's permit back, after its process is known to have
    /// terminated.
    pub fn release_permit(&mut self)
        requires
            old(self).wf(),
            old(self).spec_pool().spec_outstanding() > 0,
        ensures
            final(self).wf(),
            final(self).spec_timeout_ms() == old(self).spec_timeout_ms(),
            final(self).spec_pool().spec_capacity() == old(self).spec_pool().spec_capacity(),
            final(self).spec_pool().spec_available() == old(self).spec_pool().spec_available() + 1,
    {
        self.pool.release()
    }
}

/// Advisory pressure probe on a gateway: true exactly when no permit is
/// available right now.
pub fn is_rate_limited(gateway: &Graphviz) -> (r: bool)
    ensures
        r == (gateway.spec_pool().spec_available() == 0),
{
    gateway.is_rate_limited()
}

} // verus!
