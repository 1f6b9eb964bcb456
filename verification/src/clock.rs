//! Readings of the monotonic clock, turned into `TimeSpan`s. What the clock
//! says is not known before it is read: the contracts here promise nothing of
//! a reading but the form of its parts.

use crate::time::TimeSpan;
use std::time::Duration;
use std::time::Instant;
use vstd::prelude::*;

verus! {

/// `std::time::Instant`: a point on the monotonic clock, carried as it is.
#[verifier::external_type_specification]
#[verifier::external_body]
pub struct ExInstant(Instant);

/// `Instant::now` reads the clock; nothing is known of the reading.
pub assume_specification[ Instant::now ]() -> (now: Instant);

/// `Instant::elapsed` measures the time since the instant was taken; nothing
/// is known of the measure.
pub assume_specification[ Instant::elapsed ](start: &Instant) -> (elapsed: Duration);

/// `Duration::as_secs` gives the whole seconds of a duration.
pub assume_specification[ Duration::as_secs ](duration: &Duration) -> (secs: u64);

/// `Duration::subsec_nanos` gives the part of a duration below one second, in
/// nanoseconds, which is always less than one billion.
pub assume_specification[ Duration::subsec_nanos ](duration: &Duration) -> (nanos: u32)
    ensures
        nanos < 1_000_000_000,
;

/// The time that has passed since `start`.
pub fn elapsed_since(start: &Instant) -> (span: TimeSpan) {
    let elapsed = start.elapsed();
    TimeSpan::new(elapsed.as_secs(), elapsed.subsec_nanos())
}

} // verus!
