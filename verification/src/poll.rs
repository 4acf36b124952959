//! The suspension point as a state machine.
//!
//! A future over a timer is polled by a scheduler. Each poll brings one
//! observation, whether the reactor has reported the timer as expired, and
//! yields one outcome. A one-shot future completes once and then refuses
//! every further poll. A periodic one never ends: each poll that observes
//! readiness reports one tick, however many expirations lie behind it.

use vstd::prelude::*;

verus! {

/// Where a future stands between two polls.
#[derive(Clone, Copy, Debug, PartialEq, Eq, Structural)]
pub enum Phase {
    /// The timer is armed and its expiration has not been consumed.
    Armed,
    /// A one-shot future has reported its completion.
    Completed,
}

/// What one poll reports to the scheduler.
#[derive(Clone, Copy, Debug, PartialEq, Eq, Structural)]
pub enum Polled {
    /// The timer has expired: the suspension resolves.
    Ready,
    /// Not yet: the task stays parked until the reactor wakes it.
    Pending,
    /// The future had completed before this poll.
    AlreadyCompleted,
}

/// What a poll in `phase` reports when it observes `ready`.
pub open spec fn outcome(phase: Phase, ready: bool) -> Polled {
    match phase {
        Phase::Completed => Polled::AlreadyCompleted,
        Phase::Armed => if ready {
            Polled::Ready
        } else {
            Polled::Pending
        },
    }
}

/// The phase after a poll in `phase` that observes `ready`.
pub open spec fn next_phase(periodic: bool, phase: Phase, ready: bool) -> Phase {
    if phase == Phase::Armed && ready && !periodic {
        Phase::Completed
    } else {
        phase
    }
}

/// The phase after the polls that observe `events`, one after another.
pub open spec fn phase_after(periodic: bool, start: Phase, events: Seq<bool>) -> Phase
    decreases events.len(),
{
    if events.len() == 0 {
        start
    } else {
        next_phase(periodic, phase_after(periodic, start, events.drop_last()), events.last())
    }
}

/// What the poll that observes `events[i]` reports, after those before it.
pub open spec fn outcome_at(periodic: bool, start: Phase, events: Seq<bool>, i: int) -> Polled {
    outcome(phase_after(periodic, start, events.take(i)), events[i])
}

/// One poll: the outcome to report and the phase to continue in.
pub fn step(periodic: bool, phase: Phase, ready: bool) -> (next: (Phase, Polled))
    ensures
        next.0 == next_phase(periodic, phase, ready),
        next.1 == outcome(phase, ready),
{
    match phase {
        Phase::Completed => (Phase::Completed, Polled::AlreadyCompleted),
        Phase::Armed => {
            if !ready {
                (Phase::Armed, Polled::Pending)
            } else if periodic {
                (Phase::Armed, Polled::Ready)
            } else {
                (Phase::Completed, Polled::Ready)
            }
        },
    }
}

/// The phase after `i + 1` polls is one step from the phase after `i`.
pub proof fn lemma_phase_after_next(periodic: bool, start: Phase, events: Seq<bool>, i: int)
    requires
        0 <= i < events.len(),
    ensures
        phase_after(periodic, start, events.take(i + 1)) == next_phase(
            periodic,
            phase_after(periodic, start, events.take(i)),
            events[i],
        ),
{
    let upto = events.take(i + 1);
    assert(upto.drop_last() =~= events.take(i));
    assert(upto.last() == events[i]);
}

/// A completed one-shot future stays completed, whatever is observed.
pub proof fn lemma_completed_is_terminal(start: Phase, events: Seq<bool>, i: int, j: int)
    requires
        0 <= i <= j <= events.len(),
        phase_after(false, start, events.take(i)) == Phase::Completed,
    ensures
        phase_after(false, start, events.take(j)) == Phase::Completed,
    decreases j - i,
{
    if i < j {
        lemma_completed_is_terminal(start, events, i, j - 1);
        lemma_phase_after_next(false, start, events, j - 1);
    }
}

/// A one-shot future reports readiness at most once: after the poll that
/// reported `Ready`, every later poll reports `AlreadyCompleted`, whatever it
/// observes.
pub proof fn lemma_no_duplicate_completion(start: Phase, events: Seq<bool>, i: int, j: int)
    requires
        0 <= i < j < events.len(),
        outcome_at(false, start, events, i) == Polled::Ready,
    ensures
        outcome_at(false, start, events, j) == Polled::AlreadyCompleted,
{
    lemma_phase_after_next(false, start, events, i);
    lemma_completed_is_terminal(start, events, i + 1, j);
}

/// While nothing is observed the future stays armed, and a poll that observes
/// nothing reports `Pending`: a wake without readiness changes nothing.
pub proof fn lemma_pending_until_ready(periodic: bool, events: Seq<bool>, i: int)
    requires
        0 <= i <= events.len(),
        forall|k: int| 0 <= k < i ==> !events[k],
    ensures
        phase_after(periodic, Phase::Armed, events.take(i)) == Phase::Armed,
        i < events.len() && !events[i] ==> outcome_at(periodic, Phase::Armed, events, i)
            == Polled::Pending,
    decreases i,
{
    if i > 0 {
        lemma_pending_until_ready(periodic, events, i - 1);
        lemma_phase_after_next(periodic, Phase::Armed, events, i - 1);
    } else {
        assert(events.take(0).len() == 0);
    }
}

/// The first poll that observes readiness reports `Ready`: once the reactor
/// has seen the expiration, the future does not stay suspended.
pub proof fn lemma_first_readiness_completes(periodic: bool, events: Seq<bool>, i: int)
    requires
        0 <= i < events.len(),
        forall|k: int| 0 <= k < i ==> !events[k],
        events[i],
    ensures
        outcome_at(periodic, Phase::Armed, events, i) == Polled::Ready,
{
    lemma_pending_until_ready(periodic, events, i);
}

/// A periodic future never ends: it stays armed, and each poll reports
/// `Ready` exactly when it observes readiness.
pub proof fn lemma_periodic_never_completes(events: Seq<bool>, i: int)
    requires
        0 <= i <= events.len(),
    ensures
        phase_after(true, Phase::Armed, events.take(i)) == Phase::Armed,
        i < events.len() ==> outcome_at(true, Phase::Armed, events, i) == outcome(
            Phase::Armed,
            events[i],
        ),
    decreases i,
{
    if i > 0 {
        lemma_periodic_never_completes(events, i - 1);
        lemma_phase_after_next(true, Phase::Armed, events, i - 1);
    } else {
        assert(events.take(0).len() == 0);
    }
}

} // verus!
