//! Spans and points of time, kept in whole milliseconds.

use vstd::prelude::*;

verus! {

/// A non-negative span of time, in whole milliseconds.
#[derive(Clone, Copy, Debug, PartialEq, Eq, Structural)]
pub struct Duration {
    pub millis: u64,
}

/// A point on a monotonic clock, in milliseconds since an origin that the
/// caller picks once and keeps.
#[derive(Clone, Copy, Debug, PartialEq, Eq, Structural)]
pub struct Instant {
    pub millis: u64,
}

/// `a - b`, or zero where `b` is the larger.
pub open spec fn sub_or_zero(a: nat, b: nat) -> nat {
    if a >= b {
        (a - b) as nat
    } else {
        0
    }
}

/// Time passed from `start` to `now`; zero when `now` lies before `start`.
pub open spec fn elapsed(start: Instant, now: Instant) -> nat {
    sub_or_zero(now.millis as nat, start.millis as nat)
}

impl Duration {
    pub fn from_millis(millis: u64) -> (r: Duration)
        ensures
            r.millis == millis,
    {
        Duration { millis }
    }

    pub fn from_secs(secs: u64) -> (r: Duration)
        requires
            secs * 1000 <= u64::MAX,
        ensures
            r.millis == secs * 1000,
    {
        Duration { millis: secs * 1000 }
    }

    pub fn as_millis(&self) -> (r: u64)
        ensures
            r == self.millis,
    {
        self.millis
    }

    pub fn is_zero(&self) -> (r: bool)
        ensures
            r == (self.millis == 0),
    {
        self.millis == 0
    }

    /// `self - other`, clamped to zero.
    pub fn saturating_sub(self, other: Duration) -> (r: Duration)
        ensures
            r.millis == sub_or_zero(self.millis as nat, other.millis as nat),
    {
        if self.millis >= other.millis {
            Duration { millis: self.millis - other.millis }
        } else {
            Duration { millis: 0 }
        }
    }
}

impl Instant {
    pub fn from_millis(millis: u64) -> (r: Instant)
        ensures
            r.millis == millis,
    {
        Instant { millis }
    }

    /// Time passed from `earlier` to `self`; zero when `self` is the earlier.
    pub fn saturating_duration_since(self, earlier: Instant) -> (r: Duration)
        ensures
            r.millis == elapsed(earlier, self),
    {
        if self.millis >= earlier.millis {
            Duration { millis: self.millis - earlier.millis }
        } else {
            Duration { millis: 0 }
        }
    }

    /// `self` moved later by `d`, held at the clock's last value.
    pub fn saturating_add(self, d: Duration) -> (r: Instant)
        ensures
            r.millis == if self.millis + d.millis <= u64::MAX {
                self.millis + d.millis
            } else {
                u64::MAX as int
            },
    {
        Instant { millis: self.millis.saturating_add(d.millis) }
    }
}

} // verus!
