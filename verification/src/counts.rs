//! Counts that stop at `u64::MAX` instead of wrapping round.

use vstd::prelude::*;

verus! {

/// A count raised by one, unless it stands at `u64::MAX`.
pub open spec fn spec_bump(count: u64) -> u64 {
    if count < u64::MAX {
        (count + 1) as u64
    } else {
        count
    }
}

/// A count raised by one, unless it stands at `u64::MAX`.
pub fn bump(count: u64) -> (r: u64)
    ensures
        r == spec_bump(count),
{
    if count < u64::MAX {
        count + 1
    } else {
        count
    }
}

/// The sum of two counts, or `u64::MAX` where that is less.
pub open spec fn spec_add_counts(a: u64, b: u64) -> u64 {
    if a + b > u64::MAX {
        u64::MAX
    } else {
        (a + b) as u64
    }
}

/// The sum of two counts, or `u64::MAX` where that is less.
pub fn add_counts(a: u64, b: u64) -> (r: u64)
    ensures
        r == spec_add_counts(a, b),
{
    if b > u64::MAX - a {
        u64::MAX
    } else {
        a + b
    }
}

} // verus!
