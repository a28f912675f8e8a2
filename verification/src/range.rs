//! Closed scalar intervals and uniform sampling from them.

use vstd::prelude::*;

verus! {

/// A closed interval `[min, max]` over fixed-point scalars.
///
/// The type itself does not enforce `min <= max`; a well-formed range is the
/// caller's responsibility, and sampling demands it.
#[derive(Clone, Copy, Debug, PartialEq, Eq, Structural)]
pub struct NumericRange {
    pub min: i64,
    pub max: i64,
}

/// Relies on `rand::random_range` over the inclusive range `lo..=hi`: the
/// sample is uniform and lies within the bounds, and a nonempty range never
/// panics.
#[verifier::external_body]
fn sample_inclusive(lo: i64, hi: i64) -> (r: i64)
    requires
        lo <= hi,
    ensures
        lo <= r <= hi,
{
    rand::random_range(lo..=hi)
}

impl NumericRange {
    /// A range is well formed when its lower bound does not exceed its
    /// upper bound.
    pub open spec fn wf(self) -> bool {
        self.min <= self.max
    }

    /// Builds the range `[min, max]`.
    pub fn new(min: i64, max: i64) -> (r: NumericRange)
        ensures
            r == (NumericRange { min, max }),
    {
        NumericRange { min, max }
    }

    /// Draws a uniform sample from `[min, max]`.
    pub fn random(&self) -> (r: i64)
        requires
            self.wf(),
        ensures
            self.min <= r <= self.max,
    {
        sample_inclusive(self.min, self.max)
    }
}

} // verus!
