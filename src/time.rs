use vstd::prelude::*;

verus! {

/// A span of time, in nanoseconds.
#[derive(Debug, Clone, Copy)]
pub struct Duration {
    pub nanos: u64,
}

/// A point on a monotonic clock, in nanoseconds since the clock's origin.
#[derive(Debug, Clone, Copy, PartialEq, Eq, Structural)]
pub struct Instant {
    pub nanos: u64,
}

impl vstd::std_specs::cmp::PartialEqSpecImpl for Duration {
    open spec fn obeys_eq_spec() -> bool {
        true
    }

    open spec fn eq_spec(&self, other: &Duration) -> bool {
        self.nanos == other.nanos
    }
}

impl PartialEq for Duration {
    fn eq(&self, other: &Duration) -> (r: bool) {
        self.nanos == other.nanos
    }
}

impl Duration {
    pub fn from_nanos(nanos: u64) -> (r: Duration)
        ensures
            r.nanos == nanos,
    {
        Duration { nanos }
    }

    pub fn from_millis(millis: u64) -> (r: Duration)
        requires
            millis * 1_000_000 <= u64::MAX,
        ensures
            r.nanos == millis * 1_000_000,
    {
        Duration { nanos: millis * 1_000_000 }
    }

    pub fn as_nanos(&self) -> (r: u64)
        ensures
            r == self.nanos,
    {
        self.nanos
    }
}

impl Instant {
    pub fn from_nanos(nanos: u64) -> (r: Instant)
        ensures
            r.nanos == nanos,
    {
        Instant { nanos }
    }

    pub fn as_nanos(&self) -> (r: u64)
        ensures
            r == self.nanos,
    {
        self.nanos
    }

    /// The instant `d` later, or `None` where it lies beyond the clock's range.
    pub fn checked_add(&self, d: Duration) -> (r: Option<Instant>)
        ensures
            self.nanos + d.nanos <= u64::MAX ==> r == Some(Instant { nanos: (self.nanos + d.nanos) as u64 }),
            self.nanos + d.nanos > u64::MAX ==> r is None,
    {
        match self.nanos.checked_add(d.nanos) {
            Some(nanos) => Some(Instant { nanos }),
            None => None,
        }
    }

    /// The instant `d` later, held at the end of the clock's range.
    pub fn saturating_add(&self, d: Duration) -> (r: Instant)
        ensures
            r.nanos == sat_add(self.nanos as int, d.nanos as int),
    {
        Instant { nanos: self.nanos.saturating_add(d.nanos) }
    }
}

/// `a + b`, or the largest clock value where the sum goes beyond it.
pub open spec fn sat_add(a: int, b: int) -> int {
    if a + b <= u64::MAX {
        a + b
    } else {
        u64::MAX as int
    }
}

} // verus!
