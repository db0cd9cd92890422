//! Deadline guard: the per-request lifecycle state machine.  One request
//! moves from waiting for a permit through spawning and supervising the
//! engine process to one terminal phase; the deadline can fire in any
//! non-terminal phase and always concludes the request with the
//! deadline-exceeded failure.  The cleanup an action asks for encodes the
//! system's core ordering by construction: a live process is killed before
//! its permit is released, and there is no action that releases first.

use vstd::prelude::*;
use crate::error::Error;
use crate::supervisor::classify;
use crate::supervisor::lossy_of;
use crate::supervisor::spec_strip_banner;

verus! {

/// Where one request stands in its lifecycle.
#[derive(Clone, Copy, Debug, PartialEq, Eq, Structural)]
pub enum Phase {
    /// Waiting for a permit; no permit held, no process spawned.
    Pending,
    /// Permit held, process not yet spawned.
    Admitted,
    /// Permit held and process spawned.
    Running,
    /// Terminal: the process ran to its own exit, or never spawned.
    Completed,
    /// Terminal: the deadline fired while the process ran, so it was
    /// forcibly terminated.
    Killed,
    /// Terminal: the deadline fired before any process was spawned.
    TimedOutWaiting,
}

/// What the surrounding task observed and reports to the state machine.
pub enum Event {
    /// The pool issued this request its permit.
    PermitAcquired,
    /// Spawning the engine process failed, with the I/O error's text.
    SpawnFailed(String),
    /// The engine process was spawned and its pipes connected.
    SpawnSucceeded,
    /// Writing the input or draining an output stream failed, with the
    /// I/O error's text.  The process may still be running.
    StreamsFailed(String),
    /// The process exited (`true` for a zero status) and both streams were
    /// drained to the end: standard output, then standard error.
    EngineExited(bool, Vec<u8>, Vec<u8>),
    /// The request's wall-clock deadline expired.
    DeadlineExpired,
}

/// The cleanup a concluding action performs.  Killing always comes before
/// releasing: no variant releases a permit ahead of a possibly live
/// process, which is the system's central invariant.
#[derive(Clone, Copy, Debug, PartialEq, Eq, Structural)]
pub enum Cleanup {
    /// No permit held and no process spawned: nothing to undo.
    Nothing,
    /// Permit held and no process alive: give the permit back.
    ReleasePermit,
    /// Process possibly alive: forcibly terminate it, await that
    /// termination, and only then give the permit back.
    KillProcessThenReleasePermit,
}

/// What the surrounding task must do next.
pub enum Action {
    /// Spawn the engine process with the request's format token.
    SpawnEngine,
    /// Write the input to the process, close its input, and drain both
    /// output streams concurrently with awaiting its exit.
    DriveStreams,
    /// The request is over: perform the cleanup, in its stated order, and
    /// answer the caller with the result.
    Conclude(Cleanup, Result<Vec<u8>, Error>),
}

/// Whether a request in phase `p` holds a permit.
pub open spec fn holds_permit(p: Phase) -> bool {
    p is Admitted || p is Running
}

/// Whether a request in phase `p` may have a live process.
pub open spec fn process_live(p: Phase) -> bool {
    p is Running
}

/// Whether `p` is terminal: the request is over and owns nothing.
pub open spec fn is_terminal(p: Phase) -> bool {
    p is Completed || p is Killed || p is TimedOutWaiting
}

/// Which events the machine accepts in which phase.  Terminal phases
/// accept none: a request concludes exactly once.
pub open spec fn accepts(p: Phase, e: Event) -> bool {
    match (p, e) {
        (Phase::Pending, Event::PermitAcquired) => true,
        (Phase::Pending, Event::DeadlineExpired) => true,
        (Phase::Admitted, Event::SpawnSucceeded) => true,
        (Phase::Admitted, Event::SpawnFailed(_)) => true,
        (Phase::Admitted, Event::DeadlineExpired) => true,
        (Phase::Running, Event::EngineExited(_, _, _)) => true,
        (Phase::Running, Event::StreamsFailed(_)) => true,
        (Phase::Running, Event::DeadlineExpired) => true,
        _ => false,
    }
}

/// The phase after `e` arrives in phase `p`.
pub open spec fn next_phase(p: Phase, e: Event) -> Phase {
    match (p, e) {
        (Phase::Pending, Event::PermitAcquired) => Phase::Admitted,
        (Phase::Pending, Event::DeadlineExpired) => Phase::TimedOutWaiting,
        (Phase::Admitted, Event::SpawnSucceeded) => Phase::Running,
        (Phase::Admitted, Event::SpawnFailed(_)) => Phase::Completed,
        (Phase::Admitted, Event::DeadlineExpired) => Phase::TimedOutWaiting,
        (Phase::Running, Event::EngineExited(_, _, _)) => Phase::Completed,
        (Phase::Running, Event::StreamsFailed(_)) => Phase::Completed,
        (Phase::Running, Event::DeadlineExpired) => Phase::Killed,
        _ => p,
    }
}

/// The cleanup a concluding transition asks for.  A permit is released
/// exactly on the concluding transition of a request that holds one; the
/// process is killed first wherever it may still be alive, and a process
/// known to have exited is not killed again.
pub open spec fn cleanup_for(p: Phase, e: Event) -> Cleanup {
    match (p, e) {
        (Phase::Pending, Event::DeadlineExpired) => Cleanup::Nothing,
        (Phase::Admitted, Event::SpawnFailed(_)) => Cleanup::ReleasePermit,
        (Phase::Admitted, Event::DeadlineExpired) => Cleanup::ReleasePermit,
        (Phase::Running, Event::EngineExited(_, _, _)) => Cleanup::ReleasePermit,
        (Phase::Running, Event::StreamsFailed(_)) => Cleanup::KillProcessThenReleasePermit,
        (Phase::Running, Event::DeadlineExpired) => Cleanup::KillProcessThenReleasePermit,
        _ => Cleanup::Nothing,
    }
}

/// Whether a cleanup gives a permit back.
pub open spec fn cleanup_releases(c: Cleanup) -> bool {
    c is ReleasePermit || c is KillProcessThenReleasePermit
}

/// The result a concluding transition answers with: deadline-exceeded on
/// expiry, the carried transport error on an I/O failure, and the
/// classified engine outcome when the process exited.
pub open spec fn result_for(p: Phase, e: Event, r: Result<Vec<u8>, Error>) -> bool {
    match (p, e) {
        (Phase::Pending, Event::DeadlineExpired) => r == Err::<Vec<u8>, Error>(Error::Timeout),
        (Phase::Admitted, Event::DeadlineExpired) => r == Err::<Vec<u8>, Error>(Error::Timeout),
        (Phase::Running, Event::DeadlineExpired) => r == Err::<Vec<u8>, Error>(Error::Timeout),
        (Phase::Admitted, Event::SpawnFailed(m)) => r matches Err(Error::Io(t)) && t@ == m@,
        (Phase::Running, Event::StreamsFailed(m)) => r matches Err(Error::Io(t)) && t@ == m@,
        (Phase::Running, Event::EngineExited(ok, out, err)) => if ok {
            r matches Ok(o) && o@ == out@
        } else {
            r matches Err(Error::Dot(t)) && t@ == lossy_of(spec_strip_banner(err@))
        },
        _ => true,
    }
}

/// The non-concluding continuation: what to do next while the request is
/// still in flight.
pub open spec fn continue_action(p: Phase, e: Event) -> Action {
    match (p, e) {
        (Phase::Pending, Event::PermitAcquired) => Action::SpawnEngine,
        _ => Action::DriveStreams,
    }
}

/// One transition of the lifecycle.  The caller performs the returned
/// action — spawning, driving the streams, or concluding with the stated
/// cleanup in its stated order — and reports the next event.
pub fn step(phase: Phase, event: Event) -> (r: (Phase, Action))
    requires
        accepts(phase, event),
    ensures
        r.0 == next_phase(phase, event),
        is_terminal(next_phase(phase, event)) ==> (r.1 matches Action::Conclude(c, res)
            && c == cleanup_for(phase, event) && result_for(phase, event, res)),
        !is_terminal(next_phase(phase, event)) ==> r.1 == continue_action(phase, event),
{
    match (phase, event) {
        (Phase::Pending, Event::PermitAcquired) => (Phase::Admitted, Action::SpawnEngine),
        (Phase::Pending, Event::DeadlineExpired) => (
            Phase::TimedOutWaiting,
            Action::Conclude(Cleanup::Nothing, Err(Error::Timeout)),
        ),
        (Phase::Admitted, Event::SpawnSucceeded) => (Phase::Running, Action::DriveStreams),
        (Phase::Admitted, Event::SpawnFailed(m)) => (
            Phase::Completed,
            Action::Conclude(Cleanup::ReleasePermit, Err(Error::Io(m))),
        ),
        (Phase::Admitted, Event::DeadlineExpired) => (
            Phase::TimedOutWaiting,
            Action::Conclude(Cleanup::ReleasePermit, Err(Error::Timeout)),
        ),
        (Phase::Running, Event::EngineExited(ok, out, err)) => (
            Phase::Completed,
            Action::Conclude(Cleanup::ReleasePermit, classify(ok, out, &err)),
        ),
        (Phase::Running, Event::StreamsFailed(m)) => (
            Phase::Completed,
            Action::Conclude(Cleanup::KillProcessThenReleasePermit, Err(Error::Io(m))),
        ),
        (Phase::Running, Event::DeadlineExpired) => (
            Phase::Killed,
            Action::Conclude(Cleanup::KillProcessThenReleasePermit, Err(Error::Timeout)),
        ),
        (p, _) => {
            proof {
                assert(false);
            }
            (p, Action::DriveStreams)
        },
    }
}

/// A process is only ever alive inside a permit: every phase with a live
/// process holds a permit, and transitions never create a live process
/// without one.
pub proof fn lemma_process_within_permit(p: Phase, e: Event)
    ensures
        process_live(p) ==> holds_permit(p),
        process_live(next_phase(p, e)) ==> holds_permit(next_phase(p, e)),
{
}

/// Kill-then-release, the system's core ordering: whenever a transition
/// concludes a request whose process may still be alive, its cleanup kills
/// the process before releasing the permit — unless the event itself
/// reported the process's exit, in which case there is nothing to kill.
pub proof fn lemma_kill_before_release(p: Phase, e: Event)
    requires
        accepts(p, e),
        process_live(p),
        is_terminal(next_phase(p, e)),
        !(e is EngineExited),
    ensures
        cleanup_for(p, e) is KillProcessThenReleasePermit,
{
}

/// A permit is released exactly on the concluding transition of a request
/// that holds one: a concluding cleanup releases iff the permit was held,
/// a non-concluding transition releases nothing, and the terminal phase
/// reached holds nothing and accepts no further event — so the release
/// happens exactly once on every path through the machine.
pub proof fn lemma_release_exactly_once(p: Phase, e: Event)
    requires
        accepts(p, e),
    ensures
        is_terminal(next_phase(p, e)) ==> (cleanup_releases(cleanup_for(p, e)) <==> holds_permit(
            p,
        )),
        !is_terminal(next_phase(p, e)) ==> cleanup_for(p, e) is Nothing,
        is_terminal(next_phase(p, e)) ==> !holds_permit(next_phase(p, e)),
        forall|e2: Event| is_terminal(next_phase(p, e)) ==> !accepts(next_phase(p, e), e2),
{
}

/// The phase a request is in after the events arrive in order.
pub open spec fn run_phases(p: Phase, events: Seq<Event>) -> Phase
    decreases events.len(),
{
    if events.len() == 0 {
        p
    } else {
        run_phases(next_phase(p, events[0]), events.drop_first())
    }
}

/// Whether every event of the sequence is accepted in turn.
pub open spec fn accepts_all(p: Phase, events: Seq<Event>) -> bool
    decreases events.len(),
{
    events.len() == 0 || (accepts(p, events[0]) && accepts_all(
        next_phase(p, events[0]),
        events.drop_first(),
    ))
}

/// How many transitions along the run release the permit.
pub open spec fn releases_along(p: Phase, events: Seq<Event>) -> int
    decreases events.len(),
{
    if events.len() == 0 {
        0
    } else {
        (if cleanup_releases(cleanup_for(p, events[0])) {
            1int
        } else {
            0int
        }) + releases_along(next_phase(p, events[0]), events.drop_first())
    }
}

/// How many of the events grant the permit.
pub open spec fn acquisitions_along(events: Seq<Event>) -> int
    decreases events.len(),
{
    if events.len() == 0 {
        0
    } else {
        (if events[0] is PermitAcquired {
            1int
        } else {
            0int
        }) + acquisitions_along(events.drop_first())
    }
}

/// Permit conservation: along any accepted run, releases minus
/// acquisitions equals the drop in permits held between the first and the
/// last phase.
pub proof fn lemma_permit_conservation(p: Phase, events: Seq<Event>)
    requires
        accepts_all(p, events),
    ensures
        releases_along(p, events) - acquisitions_along(events) == (if holds_permit(p) {
            1int
        } else {
            0int
        }) - (if holds_permit(run_phases(p, events)) {
            1int
        } else {
            0int
        }),
    decreases events.len(),
{
    if events.len() > 0 {
        lemma_permit_conservation(next_phase(p, events[0]), events.drop_first());
    }
}

/// The permit is granted only to a pending request, and a request never
/// becomes pending again, so any accepted run sees at most one grant.
pub proof fn lemma_at_most_one_acquisition(p: Phase, events: Seq<Event>)
    requires
        accepts_all(p, events),
    ensures
        0 <= acquisitions_along(events),
        p is Pending ==> acquisitions_along(events) <= 1,
        !(p is Pending) ==> acquisitions_along(events) == 0,
    decreases events.len(),
{
    if events.len() > 0 {
        lemma_at_most_one_acquisition(next_phase(p, events[0]), events.drop_first());
    }
}

/// A permit, once issued, is released exactly once, whatever the path:
/// over every accepted sequence of events that takes a fresh request to a
/// terminal phase — success, spawn failure, stream failure, or deadline
/// expiry — the run performs exactly one release for the one acquisition,
/// and no release at all if the request never got its permit.
pub proof fn lemma_trace_release_exactly_once(events: Seq<Event>)
    requires
        accepts_all(Phase::Pending, events),
        is_terminal(run_phases(Phase::Pending, events)),
    ensures
        releases_along(Phase::Pending, events) == acquisitions_along(events),
        releases_along(Phase::Pending, events) <= 1,
{
    lemma_permit_conservation(Phase::Pending, events);
    lemma_at_most_one_acquisition(Phase::Pending, events);
}

/// The deadline always lands: in every non-terminal phase the machine
/// accepts its expiry, concludes at once with the deadline-exceeded
/// failure, kills the process first if one may be running, and releases
/// the permit iff one was held.
pub proof fn lemma_deadline_concludes(p: Phase)
    requires
        !is_terminal(p),
    ensures
        accepts(p, Event::DeadlineExpired),
        is_terminal(next_phase(p, Event::DeadlineExpired)),
        cleanup_releases(cleanup_for(p, Event::DeadlineExpired)) <==> holds_permit(p),
        process_live(p) ==> cleanup_for(p, Event::DeadlineExpired)
            is KillProcessThenReleasePermit,
        forall|r: Result<Vec<u8>, Error>|
            result_for(p, Event::DeadlineExpired, r) ==> r == Err::<Vec<u8>, Error>(
                Error::Timeout,
            ),
{
}

} // verus!
