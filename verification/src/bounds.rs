use vstd::prelude::*;

verus! {

/// `value` held between `min` and `max`: below `min` gives `min`, above
/// `max` gives `max`. The lower bound is tested first.
pub open spec fn clamp_spec(value: int, min: int, max: int) -> int {
    if value < min {
        min
    } else if value > max {
        max
    } else {
        value
    }
}

/// Holds `value` between `min` and `max`.
pub fn clamp(value: i32, min: i32, max: i32) -> (r: i32)
    ensures
        r == clamp_spec(value as int, min as int, max as int),
        min <= max ==> min <= r <= max,
        min <= value <= max ==> r == value,
{
    if value < min {
        return min;
    }
    if value > max {
        return max;
    }
    value
}


} // verus!
