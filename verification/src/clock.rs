//! Milliseconds-since-epoch time with saturating arithmetic.

use vstd::prelude::*;

verus! {

/// Millisecond sum of `a` and `b`, saturating at `u64::MAX`.
pub open spec fn sat_add(a: u64, b: u64) -> u64 {
    if a + b > u64::MAX {
        u64::MAX
    } else {
        (a + b) as u64
    }
}

/// Millisecond difference `a - b`, floored at zero.
pub open spec fn sat_sub(a: u64, b: u64) -> u64 {
    if a >= b {
        (a - b) as u64
    } else {
        0
    }
}

/// A relative span of time in milliseconds, non-negative by construction.
#[derive(Clone, Copy, PartialEq, Eq, Structural, PartialOrd, Ord, Debug)]
pub struct Duration(pub u64);

/// An absolute instant: milliseconds since the Unix epoch.
///
/// Arithmetic on timestamps never wraps: it saturates at zero and at the
/// largest representable instant instead.
#[derive(Clone, Copy, PartialEq, Eq, Structural, PartialOrd, Ord, Debug)]
pub struct Timestamp(pub u64);

impl Duration {
    /// Creates a new duration representing the given number of milliseconds.
    pub fn from_millis(millis: u64) -> (r: Self)
        ensures
            r == (Duration(millis)),
    {
        Duration(millis)
    }

    /// Returns the number of milliseconds this duration represents.
    pub fn millis(&self) -> (r: u64)
        ensures
            r == self.0,
    {
        self.0
    }
}

impl Default for Duration {
    /// The zero-length span.
    fn default() -> (r: Self)
        ensures
            r == (Duration(0)),
    {
        Duration(0)
    }
}

impl Default for Timestamp {
    /// The epoch itself: the zero timestamp.
    fn default() -> (r: Self)
        ensures
            r == (Timestamp(0)),
    {
        Timestamp(0)
    }
}

impl Timestamp {
    /// The timestamp `duration` after `self`, saturating at the maximum.
    pub open spec fn spec_add(self, duration: Duration) -> Timestamp {
        Timestamp(sat_add(self.0, duration.0))
    }

    /// The timestamp `duration` before `self`, floored at the zero timestamp.
    pub open spec fn spec_sub(self, duration: Duration) -> Timestamp {
        Timestamp(sat_sub(self.0, duration.0))
    }

    /// The span from `other` up to `self`; zero whenever `other` is not
    /// earlier than `self`.
    pub open spec fn spec_diff(self, other: Timestamp) -> Duration {
        Duration(sat_sub(self.0, other.0))
    }

    /// Creates a new `Timestamp` from a Unix timestamp in milliseconds.
    pub fn from_unix_millis(millis: u64) -> (r: Self)
        ensures
            r == (Timestamp(millis)),
    {
        Timestamp(millis)
    }

    /// Increases the timestamp by the given `Duration`, saturating instead of
    /// wrapping.
    pub fn add(&self, duration: Duration) -> (r: Timestamp)
        ensures
            r == self.spec_add(duration),
    {
        Timestamp(self.0.saturating_add(duration.0))
    }

    /// Decreases the timestamp by the given `Duration`, floored at the zero
    /// timestamp.
    pub fn sub(&self, duration: Duration) -> (r: Timestamp)
        ensures
            r == self.spec_sub(duration),
    {
        Timestamp(self.0.saturating_sub(duration.0))
    }

    /// Returns the saturated difference between two timestamps as a
    /// `Duration`: `self - other`, or zero if `other` is later.
    pub fn diff(&self, other: &Self) -> (r: Duration)
        ensures
            r == self.spec_diff(*other),
    {
        Duration(self.0.saturating_sub(other.0))
    }

    /// Returns the number of milliseconds since the Unix epoch.
    pub fn unix_millis(&self) -> (r: u64)
        ensures
            r == self.0,
    {
        self.0
    }
}

/// Law: adding a duration and then subtracting it again returns the original
/// timestamp, as long as the addition did not saturate.
pub proof fn lemma_add_sub_round_trip(t: Timestamp, d: Duration)
    requires
        t.0 + d.0 <= u64::MAX,
    ensures
        t.spec_add(d).spec_sub(d) == t,
{
}

/// Law: subtracting a duration larger than the timestamp saturates at the
/// zero timestamp rather than underflowing.
pub proof fn lemma_sub_saturates_at_zero(t: Timestamp, d: Duration)
    requires
        d.0 > t.0,
    ensures
        t.spec_sub(d) == (Timestamp(0)),
{
}

/// Law: the difference of two timestamps is never negative, and is zero
/// whenever the subtrahend is at least as late as the minuend.
pub proof fn lemma_diff_non_negative(a: Timestamp, b: Timestamp)
    ensures
        a.spec_diff(b).0 >= 0,
        b.0 >= a.0 ==> a.spec_diff(b) == (Duration(0)),
{
}

} // verus!
