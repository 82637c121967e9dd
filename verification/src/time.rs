//! Spans of time.

use vstd::prelude::*;

verus! {

/// A span of time, in nanoseconds.
#[derive(Clone, Copy, Debug, PartialEq, Eq, PartialOrd, Ord, Structural)]
pub struct TimeSpan {
    pub nanos: u128,
}

impl TimeSpan {
    /// A span of whole seconds.
    pub fn from_secs(seconds: u64) -> (r: TimeSpan)
        ensures
            r.nanos == seconds * 1_000_000_000,
    {
        TimeSpan { nanos: seconds as u128 * 1_000_000_000 }
    }

    /// A span of whole milliseconds.
    pub fn from_millis(milliseconds: u64) -> (r: TimeSpan)
        ensures
            r.nanos == milliseconds * 1_000_000,
    {
        TimeSpan { nanos: milliseconds as u128 * 1_000_000 }
    }

    /// The shorter of two spans.
    pub open spec fn shorter(self, other: TimeSpan) -> TimeSpan {
        if other.nanos < self.nanos {
            other
        } else {
            self
        }
    }

    /// The shorter of two spans.
    pub fn at_most(self, other: TimeSpan) -> (r: TimeSpan)
        ensures
            r == self.shorter(other),
    {
        if other.nanos < self.nanos {
            other
        } else {
            self
        }
    }

    /// What is left of the span after `elapsed`.
    pub fn saturating_sub(self, elapsed: TimeSpan) -> (r: TimeSpan)
        ensures
            r.nanos == if self.nanos > elapsed.nanos {
                self.nanos - elapsed.nanos
            } else {
                0
            },
    {
        TimeSpan { nanos: self.nanos.saturating_sub(elapsed.nanos) }
    }
}

/// The shorter of two spans is one of them, and neither is shorter than it.
pub proof fn shorter_span_is_the_least(a: TimeSpan, b: TimeSpan)
    ensures
        a.shorter(b) == a || a.shorter(b) == b,
        a.shorter(b).nanos <= a.nanos,
        a.shorter(b).nanos <= b.nanos,
{
}

} // verus!
