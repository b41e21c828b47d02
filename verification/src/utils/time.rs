//! Durations of whole seconds.
//!
//! A `Duration` is opaque here. What this file says of it is taken from the
//! documentation of `std::time::Duration` and is not proved.
use std::time::Duration;
use vstd::prelude::*;

verus! {

/// The whole seconds that a duration holds, as `Duration::as_secs` returns
/// them.
pub uninterp spec fn whole_secs(duration: Duration) -> u64;

/// The part of a duration below one second, in nanoseconds, as
/// `Duration::subsec_nanos` returns it.
pub uninterp spec fn subsec_nanos(duration: Duration) -> u32;

/// `Duration::as_secs` returns the whole seconds of the duration.
pub assume_specification[ Duration::as_secs ](duration: &Duration) -> (secs: u64)
    ensures
        secs == whole_secs(*duration),
;

/// `Duration::from_secs` makes a duration of as many whole seconds and of
/// nothing below a second.
pub assume_specification[ Duration::from_secs ](secs: u64) -> (duration: Duration)
    ensures
        whole_secs(duration) == secs,
        subsec_nanos(duration) == 0,
;

} // verus!
