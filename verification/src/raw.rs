//! The descriptor-based backend: what user space decides before and after the
//! kernel calls that create and arm a timer descriptor.
//!
//! The kernel calls themselves are made by the caller. This module turns
//! durations into the kernel's time representation, builds the argument of the
//! arming call and judges the descriptor that the creating call returned.

use crate::span::{is_zero, nanos_of, secs_of, NANOS_PER_SEC};
use std::time::Duration;
use vstd::prelude::*;

verus! {

/// The largest number of whole seconds that the kernel's seconds field holds.
pub const MAX_SECS: u64 = 0x7fff_ffff_ffff_ffff;

/// A point or span of time as the kernel takes it: seconds and nanoseconds.
#[derive(Clone, Copy, Debug, PartialEq, Eq, Structural)]
pub struct TimeSpec {
    pub tv_sec: i64,
    pub tv_nsec: i64,
}

/// The argument of the arming call: the time until the first expiration and
/// the period of the repetitions that follow it.
#[derive(Clone, Copy, Debug, PartialEq, Eq, Structural)]
pub struct ItimerSpec {
    pub it_interval: TimeSpec,
    pub it_value: TimeSpec,
}

impl TimeSpec {
    /// Both fields are in the range that the kernel accepts.
    pub open spec fn wf(self) -> bool {
        0 <= self.tv_sec && 0 <= self.tv_nsec < NANOS_PER_SEC
    }

    /// Both fields are zero.
    pub open spec fn is_zero(self) -> bool {
        self.tv_sec == 0 && self.tv_nsec == 0
    }
}

/// The seconds of `time` fit the kernel's signed seconds field.
pub open spec fn fits_native(time: Duration) -> bool {
    secs_of(time) <= MAX_SECS
}

/// `time` in the kernel's representation, field for field.
pub open spec fn native_of(time: Duration) -> TimeSpec {
    TimeSpec { tv_sec: secs_of(time) as i64, tv_nsec: nanos_of(time) as i64 }
}

/// The shortest span that the kernel does not read as "disarm".
pub open spec fn shortest() -> TimeSpec {
    TimeSpec { tv_sec: 0, tv_nsec: 1 }
}

/// The time until the first expiration that is written for a delay of `time`.
///
/// A value of zero seconds and zero nanoseconds would disarm the descriptor
/// instead of expiring it at once, so the empty delay is written as one
/// nanosecond. Every other delay is written as it is.
pub open spec fn first_expiration(time: Duration) -> TimeSpec {
    if is_zero(time) {
        shortest()
    } else {
        native_of(time)
    }
}

/// The repeat period that is written for `interval`: all zero for a one-shot
/// timer, else the interval as it is.
pub open spec fn repeat_period(interval: Option<Duration>) -> TimeSpec {
    match interval {
        Some(period) => native_of(period),
        None => TimeSpec { tv_sec: 0, tv_nsec: 0 },
    }
}

/// Every duration of the schedule fits the kernel's representation.
pub open spec fn armable(time: Duration, interval: Option<Duration>) -> bool {
    fits_native(time) && (interval is Some ==> fits_native(interval->Some_0))
}

/// The argument of the arming call for a first expiration after `time` and
/// repetitions every `interval`.
pub open spec fn arming_of(time: Duration, interval: Option<Duration>) -> ItimerSpec {
    ItimerSpec { it_interval: repeat_period(interval), it_value: first_expiration(time) }
}

/// Tells whether `time` can be written in the kernel's representation.
pub fn fits_timespec(time: Duration) -> (fits: bool)
    ensures
        fits == fits_native(time),
{
    time.as_secs() <= MAX_SECS
}

/// Converts `time` to the kernel's representation without loss: the seconds
/// go to the seconds field, the nanoseconds below one second to the other.
pub fn as_timespec(time: Duration) -> (ts: TimeSpec)
    requires
        fits_native(time),
    ensures
        ts == native_of(time),
        ts.tv_sec == secs_of(time),
        ts.tv_nsec == nanos_of(time),
        ts.wf(),
        ts.is_zero() <==> is_zero(time),
{
    TimeSpec { tv_sec: time.as_secs() as i64, tv_nsec: time.subsec_nanos() as i64 }
}

/// Converts `time` where it fits the kernel's representation, and says so
/// where it does not.
pub fn try_timespec(time: Duration) -> (ts: Option<TimeSpec>)
    ensures
        fits_native(time) ==> ts == Some(native_of(time)),
        !fits_native(time) ==> ts is None,
        ts is Some ==> ts->Some_0.wf(),
{
    if fits_timespec(time) {
        Some(as_timespec(time))
    } else {
        None
    }
}

/// Builds the argument of the arming call.
///
/// The result is `None` exactly when a duration of the schedule does not fit
/// the kernel's representation. Otherwise the first expiration is `time`
/// (one nanosecond where `time` is empty, so that the call arms and never
/// disarms) and the repeat period is `interval`, all zero for a one-shot
/// timer.
pub fn itimerspec(time: Duration, interval: Option<Duration>) -> (new_value: Option<ItimerSpec>)
    ensures
        armable(time, interval) ==> new_value == Some(arming_of(time, interval)),
        !armable(time, interval) ==> new_value is None,
        new_value is Some ==> !new_value->Some_0.it_value.is_zero() && new_value->Some_0.it_value.wf()
            && new_value->Some_0.it_interval.wf(),
        new_value is Some && interval is None ==> new_value->Some_0.it_interval.is_zero(),
{
    let it_interval = match interval {
        Some(period) => match try_timespec(period) {
            Some(ts) => ts,
            None => { return None; },
        },
        None => TimeSpec { tv_sec: 0, tv_nsec: 0 },
    };
    let value = match try_timespec(time) {
        Some(ts) => ts,
        None => { return None; },
    };
    let it_value = if value.tv_sec == 0 && value.tv_nsec == 0 {
        TimeSpec { tv_sec: 0, tv_nsec: 1 }
    } else {
        value
    };
    Some(ItimerSpec { it_interval, it_value })
}

/// The arguments of one arming call.
#[derive(Clone, Copy, Debug, PartialEq, Eq, Structural)]
pub struct SetTime {
    /// The descriptor of the timer to arm.
    pub fd: i32,
    /// The flags of the call: zero, for a schedule relative to the moment of
    /// the call.
    pub flags: i32,
    /// The schedule to write.
    pub new_value: ItimerSpec,
}

/// Unix implementation of a timer backend based on file descriptors.
///
/// It owns the descriptor of one kernel timer. The schedule lives in the
/// kernel and is not mirrored here.
#[derive(Debug)]
pub struct NativeTimer {
    fd: i32,
}

impl NativeTimer {
    #[verifier::type_invariant]
    spec fn valid(&self) -> bool {
        self.fd >= 0
    }

    /// The descriptor that the timer owns.
    pub closed spec fn descriptor(&self) -> i32 {
        self.fd
    }

    /// Takes over what the creating call returned: a descriptor, which is
    /// not negative, or the kernel's refusal, which is.
    pub fn from_fd(fd: i32) -> (timer: Option<NativeTimer>)
        ensures
            fd >= 0 ==> timer is Some && timer->Some_0.descriptor() == fd,
            fd < 0 ==> timer is None,
    {
        if fd >= 0 {
            Some(NativeTimer { fd })
        } else {
            None
        }
    }

    /// The descriptor, for the kernel calls and for the reactor.
    pub fn fd(&self) -> (fd: i32)
        ensures
            fd == self.descriptor(),
            fd >= 0,
    {
        proof {
            use_type_invariant(self);
        }
        self.fd
    }

    /// The arming call that gives this timer a first expiration after `time`
    /// and repetitions every `interval`: on this timer's descriptor, relative
    /// to the moment of the call, with the schedule that `itimerspec` builds.
    /// `None` exactly when a duration does not fit the kernel's
    /// representation.
    pub fn arming(&self, time: Duration, interval: Option<Duration>) -> (call: Option<SetTime>)
        ensures
            armable(time, interval) ==> call == Some(
                (SetTime {
                    fd: self.descriptor(),
                    flags: 0,
                    new_value: arming_of(time, interval),
                }),
            ),
            !armable(time, interval) ==> call is None,
    {
        match itimerspec(time, interval) {
            Some(new_value) => Some(SetTime { fd: self.fd, flags: 0, new_value }),
            None => None,
        }
    }
}

} // verus!
