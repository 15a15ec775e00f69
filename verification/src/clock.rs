//! Points in time, handed in by the caller.
//!
//! Nothing in this crate reads a clock. Whoever calls reads one and passes the
//! reading on, so a caller with a made-up clock gets the same answers as one
//! with a real clock.

use vstd::prelude::*;

verus! {

/// Nanoseconds in a second.
pub const NANOS_PER_SECOND: u128 = 1_000_000_000;

/// A point in time: nanoseconds since the Unix epoch.
#[derive(Clone, Copy, Debug, PartialEq, Eq, Structural)]
pub struct Timestamp {
    pub nanos: u128,
}

impl Timestamp {
    /// The time from `earlier` to `self` in nanoseconds, and zero where
    /// `earlier` is in fact the later of the two: a clock that was set back
    /// between two readings yields no negative time.
    pub open spec fn spec_nanos_since(&self, earlier: &Timestamp) -> u128 {
        if self.nanos >= earlier.nanos {
            (self.nanos - earlier.nanos) as u128
        } else {
            0
        }
    }

    /// The whole seconds from `earlier` to `self`, clamped at zero.
    pub open spec fn spec_seconds_since(&self, earlier: &Timestamp) -> u128 {
        self.nanos_since(earlier) / NANOS_PER_SECOND
    }

    /// The point in time `nanos` nanoseconds after the Unix epoch.
    pub fn from_nanos(nanos: u128) -> (t: Timestamp)
        ensures
            t.nanos == nanos,
    {
        Timestamp { nanos }
    }

    /// The time from `earlier` to `self` in nanoseconds, clamped at zero.
    #[verifier::when_used_as_spec(spec_nanos_since)]
    pub fn nanos_since(&self, earlier: &Timestamp) -> (elapsed: u128)
        ensures
            elapsed == self.spec_nanos_since(earlier),
    {
        if self.nanos >= earlier.nanos {
            self.nanos - earlier.nanos
        } else {
            0
        }
    }

    /// The whole seconds from `earlier` to `self`, clamped at zero.
    #[verifier::when_used_as_spec(spec_seconds_since)]
    pub fn seconds_since(&self, earlier: &Timestamp) -> (seconds: u128)
        ensures
            seconds == self.spec_seconds_since(earlier),
    {
        self.nanos_since(earlier) / NANOS_PER_SECOND
    }
}

} // verus!
