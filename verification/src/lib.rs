//! Kernel-backed timers as suspension points of a cooperative scheduler.
//!
//! A [`Delay`] owns a timer backend, arms it and keeps the state of the
//! suspension point. The scheduler's side hands each poll the readiness that
//! the reactor observed and gets back what to report.

pub mod poll;
pub mod raw;
pub mod span;

pub use poll::{Phase, Polled};
pub use raw::NativeTimer;

use crate::span::is_zero;
use std::time::Duration;
use vstd::prelude::*;

verus! {

/// What a timer was armed with.
#[derive(Clone, Copy, Debug, PartialEq, Eq)]
pub struct Schedule {
    /// The time until the first expiration.
    pub time: Duration,
    /// The period of the expirations after the first; `None` for a one-shot
    /// timer.
    pub interval: Option<Duration>,
}

/// The schedule of a timer that first expires after `time` and then every
/// `interval`.
pub open spec fn schedule_of(time: Duration, interval: Option<Duration>) -> Schedule {
    Schedule { time, interval }
}

/// Represents a backend to a native timer.
///
/// The contracts below are what this crate assumes of every backend: a new
/// timer is unarmed, and arming replaces whatever schedule was there before.
pub trait RawTimer: Sized {
    /// The schedule that the timer was last armed with; `None` until then.
    spec fn schedule(&self) -> Option<Schedule>;

    /// Creates a fresh, unarmed timer.
    fn new_timer() -> (timer: Self)
        ensures
            timer.schedule() is None,
    ;

    /// Arms the timer to expire after `time` and, where `interval` is given,
    /// every `interval` from then on. Nothing of an earlier schedule remains.
    fn set_timer(&mut self, time: Duration, interval: Option<Duration>)
        ensures
            final(self).schedule() == Some(schedule_of(time, interval)),
    ;
}

/// A suspension point that completes after a specified `Duration`.
pub struct Delay<R: RawTimer> {
    evented: R,
    periodic: bool,
    phase: Phase,
}

impl<R: RawTimer> Delay<R> {
    /// The backend that this delay owns.
    pub closed spec fn timer(&self) -> R {
        self.evented
    }

    /// Where the suspension point stands.
    pub closed spec fn phase(&self) -> Phase {
        self.phase
    }

    /// Whether the delay reports one completion for every tick, without end.
    pub closed spec fn periodic(&self) -> bool {
        self.periodic
    }

    /// Create a new `Delay` with duration `time` on a fresh timer of the
    /// backend `R`, armed for one expiration after `time`.
    pub fn new(time: Duration) -> (delay: Self)
        ensures
            delay.timer().schedule() == Some(schedule_of(time, None)),
            delay.phase() == Phase::Armed,
            !delay.periodic(),
    {
        Self::from_raw(R::new_timer(), time)
    }

    /// Create a new `Delay` from a `RawTimer` implementation with duration
    /// `time`: the backend is armed for one expiration after `time`, whatever
    /// it was armed with before.
    pub fn from_raw(raw: R, time: Duration) -> (delay: Self)
        ensures
            delay.timer().schedule() == Some(schedule_of(time, None)),
            delay.phase() == Phase::Armed,
            !delay.periodic(),
    {
        let mut raw = raw;
        raw.set_timer(time, None);
        Delay { evented: raw, periodic: false, phase: Phase::Armed }
    }

    /// Create a new `Delay` that first completes after `time` and then again
    /// every `interval`. An empty `interval` repeats nothing: the delay is
    /// then one-shot.
    pub fn periodic_from_raw(raw: R, time: Duration, interval: Duration) -> (delay: Self)
        ensures
            delay.timer().schedule() == Some(schedule_of(time, Some(interval))),
            delay.phase() == Phase::Armed,
            delay.periodic() == !is_zero(interval),
    {
        let mut raw = raw;
        raw.set_timer(time, Some(interval));
        let repeats = interval.as_secs() != 0 || interval.subsec_nanos() != 0;
        Delay { evented: raw, periodic: repeats, phase: Phase::Armed }
    }

    /// One poll of the scheduler, which observed `ready` at the reactor.
    ///
    /// An armed delay reports `Ready` when readiness was observed and
    /// `Pending` when not; a one-shot delay is completed by its `Ready`. A
    /// completed delay reports `AlreadyCompleted` and stays as it is. The
    /// backend is not touched.
    pub fn poll(&mut self, ready: bool) -> (polled: Polled)
        ensures
            polled == poll::outcome(old(self).phase(), ready),
            final(self).phase() == poll::next_phase(old(self).periodic(), old(self).phase(), ready),
            final(self).periodic() == old(self).periodic(),
            final(self).timer() == old(self).timer(),
    {
        let (phase, polled) = poll::step(self.periodic, self.phase, ready);
        self.phase = phase;
        polled
    }

    /// Tells whether the delay has reported its completion.
    pub fn is_completed(&self) -> (done: bool)
        ensures
            done == (self.phase() == Phase::Completed),
    {
        self.phase == Phase::Completed
    }

    /// Tells whether the delay goes on after a completion, tick by tick.
    pub fn is_periodic(&self) -> (repeats: bool)
        ensures
            repeats == self.periodic(),
    {
        self.periodic
    }

    /// The backend, for registering it with a reactor.
    pub fn get_ref(&self) -> (raw: &R)
        ensures
            *raw == self.timer(),
    {
        &self.evented
    }

    /// The backend, for a reactor that needs it mutably. The delay's own
    /// state is out of reach through it.
    pub fn get_mut(&mut self) -> (raw: &mut R)
        ensures
            *raw == old(self).timer(),
            final(self).timer() == *final(raw),
            final(self).phase() == old(self).phase(),
            final(self).periodic() == old(self).periodic(),
    {
        &mut self.evented
    }
}

} // verus!
