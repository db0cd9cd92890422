//! Cross-request accounting: with many requests in flight at once, the
//! permit pool's counter ties the phases of all requests together.  The
//! system invariant says the pool's issued permits are exactly the
//! requests whose phase holds a permit; from it, the number of requests
//! with a live process never exceeds the configured ceiling, and every
//! lifecycle transition, paired with the pool movement its action
//! performs, preserves the invariant.

use vstd::prelude::*;
use crate::deadline::Event;
use crate::deadline::Phase;
use crate::deadline::accepts;
use crate::deadline::cleanup_for;
use crate::deadline::cleanup_releases;
use crate::deadline::holds_permit;
use crate::deadline::is_terminal;
use crate::deadline::lemma_deadline_concludes;
use crate::deadline::next_phase;
use crate::deadline::process_live;

verus! {

/// How many of the phases satisfy `f`.
pub open spec fn count_where(phases: Seq<Phase>, f: spec_fn(Phase) -> bool) -> int
    decreases phases.len(),
{
    if phases.len() == 0 {
        0
    } else {
        count_where(phases.drop_last(), f) + (if f(phases.last()) {
            1int
        } else {
            0int
        })
    }
}

/// The predicate "this request holds a permit", as a value.
pub open spec fn holding() -> spec_fn(Phase) -> bool {
    |p: Phase| holds_permit(p)
}

/// The predicate "this request's process may be alive", as a value.
pub open spec fn living() -> spec_fn(Phase) -> bool {
    |p: Phase| process_live(p)
}

/// A count is between zero and the number of requests.
pub proof fn lemma_count_bounds(phases: Seq<Phase>, f: spec_fn(Phase) -> bool)
    ensures
        0 <= count_where(phases, f) <= phases.len(),
    decreases phases.len(),
{
    if phases.len() > 0 {
        lemma_count_bounds(phases.drop_last(), f);
    }
}

/// A weaker predicate counts no more than a stronger one.
pub proof fn lemma_count_mono(phases: Seq<Phase>, f: spec_fn(Phase) -> bool, g: spec_fn(
    Phase,
) -> bool)
    requires
        forall|p: Phase| #[trigger] f(p) ==> g(p),
    ensures
        count_where(phases, f) <= count_where(phases, g),
    decreases phases.len(),
{
    if phases.len() > 0 {
        lemma_count_mono(phases.drop_last(), f, g);
    }
}

/// Replacing one request's phase moves the count by the difference at that
/// position alone.
pub proof fn lemma_count_update(phases: Seq<Phase>, f: spec_fn(Phase) -> bool, i: int, p2: Phase)
    requires
        0 <= i < phases.len(),
    ensures
        count_where(phases.update(i, p2), f) == count_where(phases, f) - (if f(phases[i]) {
            1int
        } else {
            0int
        }) + (if f(p2) {
            1int
        } else {
            0int
        }),
    decreases phases.len(),
{
    let s2 = phases.update(i, p2);
    if i == phases.len() - 1 {
        assert(s2.drop_last() =~= phases.drop_last());
        assert(s2.last() == p2);
    } else {
        assert(s2.drop_last() =~= phases.drop_last().update(i, p2));
        assert(s2.last() == phases.last());
        assert(phases.drop_last()[i] == phases[i]);
        lemma_count_update(phases.drop_last(), f, i, p2);
    }
}

/// If some request satisfies `f`, the count is at least one.
pub proof fn lemma_count_at_least_one(phases: Seq<Phase>, f: spec_fn(Phase) -> bool, i: int)
    requires
        0 <= i < phases.len(),
        f(phases[i]),
    ensures
        count_where(phases, f) >= 1,
    decreases phases.len(),
{
    lemma_count_bounds(phases.drop_last(), f);
    if i < phases.len() - 1 {
        assert(phases.drop_last()[i] == phases[i]);
        lemma_count_at_least_one(phases.drop_last(), f, i);
    }
}

/// The system invariant over the pool's counter and all requests' phases:
/// the counter is within its capacity and the permits it accounts as
/// issued are exactly the requests whose phase holds one.
pub open spec fn sys_inv(capacity: int, available: int, phases: Seq<Phase>) -> bool {
    &&& 0 <= available <= capacity
    &&& count_where(phases, holding()) == capacity - available
}

/// At most the configured ceiling many worker processes are ever alive at
/// once: every live process sits inside a held permit, and held permits
/// never exceed the capacity.
pub proof fn lemma_live_bounded(capacity: int, available: int, phases: Seq<Phase>)
    requires
        sys_inv(capacity, available, phases),
    ensures
        count_where(phases, living()) <= capacity,
{
    assert(forall|p: Phase| #[trigger] living()(p) ==> holding()(p));
    lemma_count_mono(phases, living(), holding());
}

/// The pool movement one transition's action performs: acquisition takes
/// one permit, a concluding cleanup that releases gives one back, and
/// everything else leaves the counter alone.
pub open spec fn pool_delta(p: Phase, e: Event) -> int {
    if e is PermitAcquired {
        -1
    } else if is_terminal(next_phase(p, e)) && cleanup_releases(cleanup_for(p, e)) {
        1
    } else {
        0
    }
}

/// Every accepted transition of any one request, paired with the pool
/// movement its action performs, preserves the system invariant.
pub proof fn lemma_step_preserves_inv(
    capacity: int,
    available: int,
    phases: Seq<Phase>,
    i: int,
    e: Event,
)
    requires
        sys_inv(capacity, available, phases),
        0 <= i < phases.len(),
        accepts(phases[i], e),
        e is PermitAcquired ==> available > 0,
    ensures
        sys_inv(
            capacity,
            available + pool_delta(phases[i], e),
            phases.update(i, next_phase(phases[i], e)),
        ),
{
    lemma_count_update(phases, holding(), i, next_phase(phases[i], e));
    if holding()(phases[i]) {
        lemma_count_at_least_one(phases, holding(), i);
    }
}

/// No permit leak on expiry: when the deadline fires on any non-terminal
/// request, its concluding cleanup brings the pool back to exactly the
/// accounting of the remaining holders — the expired request holds
/// nothing afterward, and the invariant still ties the counter to the
/// phases.
pub proof fn lemma_deadline_no_permit_leak(
    capacity: int,
    available: int,
    phases: Seq<Phase>,
    i: int,
)
    requires
        sys_inv(capacity, available, phases),
        0 <= i < phases.len(),
        !is_terminal(phases[i]),
    ensures
        ({
            let phases2 = phases.update(i, next_phase(phases[i], Event::DeadlineExpired));
            let available2 = available + pool_delta(phases[i], Event::DeadlineExpired);
            &&& sys_inv(capacity, available2, phases2)
            &&& !holds_permit(phases2[i])
            &&& available2 == capacity - count_where(phases2, holding())
        }),
{
    lemma_deadline_concludes(phases[i]);
    lemma_step_preserves_inv(capacity, available, phases, i, Event::DeadlineExpired);
}

} // verus!
