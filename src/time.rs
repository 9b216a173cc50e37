use vstd::prelude::*;

verus! {

pub const NANOS_PER_SEC: u64 = 1_000_000_000;

pub const NANOS_PER_MILLI: u64 = 1_000_000;

/// A span of time, counted in whole nanoseconds.
#[derive(Clone, Copy, Debug, PartialEq, Eq, Structural)]
pub struct Duration {
    pub nanos: u64,
}

impl Duration {
    pub open spec fn secs_spec(self) -> nat {
        (self.nanos / NANOS_PER_SEC) as nat
    }

    pub fn from_nanos(nanos: u64) -> (r: Duration)
        ensures
            r.nanos == nanos,
    {
        Duration { nanos }
    }

    pub fn from_secs(secs: u64) -> (r: Duration)
        requires
            secs * NANOS_PER_SEC <= u64::MAX,
        ensures
            r.nanos == secs * NANOS_PER_SEC,
    {
        Duration { nanos: secs * NANOS_PER_SEC }
    }

    pub fn from_millis(millis: u64) -> (r: Duration)
        requires
            millis * NANOS_PER_MILLI <= u64::MAX,
        ensures
            r.nanos == millis * NANOS_PER_MILLI,
    {
        Duration { nanos: millis * NANOS_PER_MILLI }
    }

    pub fn as_secs(&self) -> (r: u64)
        ensures
            r == self.secs_spec(),
    {
        self.nanos / NANOS_PER_SEC
    }

    pub fn is_zero(&self) -> (r: bool)
        ensures
            r == (self.nanos == 0),
    {
        self.nanos == 0
    }

    /// `self - other`, or `None` where that would be negative.
    pub fn checked_sub(&self, other: Duration) -> (r: Option<Duration>)
        ensures
            self.nanos >= other.nanos ==> r == Some(Duration { nanos: (self.nanos - other.nanos) as u64 }),
            self.nanos < other.nanos ==> r is None,
    {
        if self.nanos >= other.nanos {
            Some(Duration { nanos: self.nanos - other.nanos })
        } else {
            None
        }
    }

    /// `self + other`, held at the largest representable span.
    pub fn saturating_add(&self, other: Duration) -> (r: Duration)
        ensures
            r.nanos == if self.nanos + other.nanos > u64::MAX {
                u64::MAX as int
            } else {
                self.nanos + other.nanos
            },
    {
        Duration { nanos: self.nanos.saturating_add(other.nanos) }
    }
}

} // verus!
