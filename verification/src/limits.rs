//! The range of values a feed accepts.

use vstd::prelude::*;

verus! {

/// Whether `value` lies within the bounds `min` and `max`, both inclusive.
/// The pair `(0, 0)` stands for "no bounds" and admits every value.
pub open spec fn within_limit(value: int, min: int, max: int) -> bool {
    (min == 0 && max == 0) || (min <= value && value <= max)
}

/// Decides whether a feed bounded by `min` and `max` accepts `value`.
pub fn check_limit(value: i32, min: i32, max: i32) -> (accepted: bool)
    ensures
        accepted == within_limit(value as int, min as int, max as int),
{
    if min == 0 && max == 0 {
        return true;
    }
    value >= min && value <= max
}

} // verus!
