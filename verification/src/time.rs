//! Points in time and the spans between them, counted in nanoseconds.
use vstd::prelude::*;

verus! {

/// A span of time.
#[derive(Debug, Clone, Copy, PartialEq, Eq, Structural)]
pub struct Duration {
    pub nanos: u128,
}

/// A reading of a clock that never runs backwards.
#[derive(Debug, Clone, Copy, PartialEq, Eq, Structural)]
pub struct Instant {
    pub nanos: u128,
}

impl Duration {
    /// The span of `secs` seconds.
    pub fn from_secs(secs: u64) -> (span: Duration)
        ensures
            span.nanos == secs * 1_000_000_000,
    {
        Duration { nanos: secs as u128 * 1_000_000_000 }
    }

    /// The span of `millis` milliseconds.
    pub fn from_millis(millis: u64) -> (span: Duration)
        ensures
            span.nanos == millis * 1_000_000,
    {
        Duration { nanos: millis as u128 * 1_000_000 }
    }
}

impl Instant {
    /// The nanoseconds from `earlier` to this instant, none if `earlier` is the later one.
    pub open spec fn since(self, earlier: Instant) -> int {
        if self.nanos < earlier.nanos {
            0
        } else {
            self.nanos - earlier.nanos
        }
    }

    /// The span from `earlier` to this instant, zero if `earlier` is the later one.
    pub fn duration_since(&self, earlier: Instant) -> (span: Duration)
        ensures
            span.nanos == self.since(earlier),
    {
        if self.nanos < earlier.nanos {
            Duration { nanos: 0 }
        } else {
            Duration { nanos: self.nanos - earlier.nanos }
        }
    }
}

/// A span leads from the earlier instant to the later one, and there is none the other way.
pub proof fn spans_lead_to_the_later_instant(a: Instant, b: Instant)
    ensures
        a.nanos <= b.nanos ==> a.nanos + b.since(a) == b.nanos,
        a.nanos <= b.nanos ==> a.since(b) == 0,
{
}

} // verus!
