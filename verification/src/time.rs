//! Lengths of time as plain integers, and the readings of the monotonic clock.

use vstd::prelude::*;

verus! {

/// Nanoseconds in one second.
pub const NANOS_PER_SEC: u32 = 1_000_000_000;

/// A non-negative length of time, exact to the nanosecond: whole seconds and
/// a fraction of a second below one billion nanoseconds.
#[derive(Clone, Copy, Debug)]
pub struct TimeSpan {
    secs: u64,
    subsec_nanos: u32,
}

impl View for TimeSpan {
    type V = nat;

    /// The whole length in nanoseconds.
    closed spec fn view(&self) -> nat {
        (self.secs as nat) * 1_000_000_000 + (self.subsec_nanos as nat)
    }
}

impl TimeSpan {
    #[verifier::type_invariant]
    spec fn canonical(self) -> bool {
        self.subsec_nanos < NANOS_PER_SEC
    }

    /// The longest span: `u64::MAX` seconds and 999,999,999 nanoseconds.
    pub open spec fn max_nanos() -> nat {
        (u64::MAX as nat) * 1_000_000_000 + 999_999_999
    }

    /// A span of `secs` seconds and `subsec_nanos` nanoseconds.
    pub fn new(secs: u64, subsec_nanos: u32) -> (span: TimeSpan)
        requires
            subsec_nanos < NANOS_PER_SEC,
        ensures
            span@ == secs * 1_000_000_000 + subsec_nanos,
    {
        TimeSpan { secs, subsec_nanos }
    }

    /// A span of `secs` seconds.
    pub fn from_secs(secs: u64) -> (span: TimeSpan)
        ensures
            span@ == secs * 1_000_000_000,
    {
        TimeSpan { secs, subsec_nanos: 0 }
    }

    /// A span of `millis` milliseconds.
    pub fn from_millis(millis: u64) -> (span: TimeSpan)
        ensures
            span@ == millis * 1_000_000,
    {
        let rest: u32 = (millis % 1000) as u32;
        TimeSpan { secs: millis / 1000, subsec_nanos: rest * 1_000_000 }
    }

    /// The whole seconds of the span.
    pub fn as_secs(&self) -> (secs: u64)
        ensures
            secs == self@ / 1_000_000_000,
    {
        proof {
            use_type_invariant(self);
        }
        self.secs
    }

    /// The part of the span below one second, in nanoseconds.
    pub fn subsec_nanos(&self) -> (nanos: u32)
        ensures
            nanos == self@ % 1_000_000_000,
            nanos < NANOS_PER_SEC,
    {
        proof {
            use_type_invariant(self);
        }
        self.subsec_nanos
    }

    /// The whole span in nanoseconds.
    pub fn as_nanos(&self) -> (nanos: u128)
        ensures
            nanos == self@,
            nanos <= Self::max_nanos(),
    {
        proof {
            use_type_invariant(self);
        }
        (self.secs as u128) * 1_000_000_000 + (self.subsec_nanos as u128)
    }

    /// The whole span in microseconds, rounded down.
    pub fn as_micros(&self) -> (micros: u128)
        ensures
            micros == self@ / 1000,
    {
        proof {
            use_type_invariant(self);
        }
        (self.secs as u128) * 1_000_000 + ((self.subsec_nanos / 1000) as u128)
    }
}

} // verus!
