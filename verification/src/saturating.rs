//! Saturating millisecond arithmetic shared by the timer and the
//! breathing engine: durations never go negative and never wrap.

use vstd::prelude::*;

verus! {

/// Mathematical saturating subtraction: `a - b`, floored at zero.
pub open spec fn sat_sub(a: int, b: int) -> int {
    if a >= b {
        a - b
    } else {
        0
    }
}

/// Mathematical saturating addition, capped at the largest `u64`.
pub open spec fn sat_add(a: int, b: int) -> int {
    if a + b <= u64::MAX {
        a + b
    } else {
        u64::MAX as int
    }
}

/// Subtract two millisecond counts, stopping at zero instead of wrapping.
pub fn sub_ms(a: u64, b: u64) -> (r: u64)
    ensures
        r == sat_sub(a as int, b as int),
{
    if a >= b {
        a - b
    } else {
        0
    }
}

/// Add two millisecond counts, stopping at `u64::MAX` instead of wrapping.
pub fn add_ms(a: u64, b: u64) -> (r: u64)
    ensures
        r == sat_add(a as int, b as int),
{
    if a <= u64::MAX - b {
        a + b
    } else {
        u64::MAX
    }
}

} // verus!
