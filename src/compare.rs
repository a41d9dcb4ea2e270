use vstd::prelude::*;

verus! {

/// The difference between two mean durations: its size in nanoseconds, and
/// whether the first mean was the larger one.
#[derive(Debug, Clone, Copy, PartialEq, Eq, Structural)]
pub struct DurationDifference {
    pub inner: u64,
    pub positive: bool,
}

/// What comparing mean `a` with mean `b` gives. A tie counts as "`b` is at
/// least as large": a zero-sized difference that is not positive.
pub open spec fn difference(a: u64, b: u64) -> DurationDifference {
    if a > b {
        DurationDifference { inner: (a - b) as u64, positive: true }
    } else {
        DurationDifference { inner: (b - a) as u64, positive: false }
    }
}

/// Compares two mean durations in nanoseconds.
pub fn compare_means(a: u64, b: u64) -> (r: DurationDifference)
    ensures
        r == difference(a, b),
{
    if a > b {
        DurationDifference { inner: a - b, positive: true }
    } else {
        DurationDifference { inner: b - a, positive: false }
    }
}

impl DurationDifference {
    /// The sign that shows the direction: `+` when the first mean was larger.
    pub fn sign(&self) -> (r: char)
        ensures
            r == (if self.positive { '+' } else { '-' }),
    {
        if self.positive {
            '+'
        } else {
            '-'
        }
    }
}

} // verus!
