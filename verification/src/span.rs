//! What verified code knows of `std::time::Duration`.
//!
//! A `Duration` is opaque to the verifier. Its two parts are named by the spec
//! functions below, and the two getters of std are given contracts over those
//! names. Nothing here is proved: the contracts restate std's documentation.

use std::time::Duration;
use vstd::prelude::*;

verus! {

/// One second in nanoseconds.
pub const NANOS_PER_SEC: u32 = 1_000_000_000;

/// The whole seconds that `d` holds.
pub uninterp spec fn secs_of(d: Duration) -> u64;

/// The part of `d` below one second, in nanoseconds.
pub uninterp spec fn nanos_of(d: Duration) -> u32;

/// `d` is the empty duration: no seconds and no nanoseconds.
pub open spec fn is_zero(d: Duration) -> bool {
    secs_of(d) == 0 && nanos_of(d) == 0
}

/// Trusted: `Duration::as_secs` returns the number of whole seconds of the
/// duration, which is what `secs_of` names.
pub assume_specification[ std::time::Duration::as_secs ](d: &Duration) -> (secs: u64)
    ensures
        secs == secs_of(*d),
;

/// Trusted: `Duration::subsec_nanos` returns the fractional part of the
/// duration in nanoseconds, which is what `nanos_of` names; std documents
/// that it is always below one billion.
pub assume_specification[ std::time::Duration::subsec_nanos ](d: &Duration) -> (nanos: u32)
    ensures
        nanos == nanos_of(*d),
        nanos < NANOS_PER_SEC,
;

} // verus!
