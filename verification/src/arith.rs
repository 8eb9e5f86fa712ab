//! Saturating arithmetic on `u128` token quantities, with exact
//! mathematical specifications.

use vstd::prelude::*;

verus! {

/// Saturating addition over the mathematical integers, clamped to `u128`.
pub open spec fn sat_add(x: int, y: int) -> int {
    if x + y > u128::MAX {
        u128::MAX as int
    } else {
        x + y
    }
}

/// Saturating subtraction over the mathematical integers, clamped at zero.
pub open spec fn sat_sub(x: int, y: int) -> int {
    if x - y < 0 {
        0
    } else {
        x - y
    }
}

/// Saturating multiplication over the mathematical integers, clamped to `u128`.
pub open spec fn sat_mul(x: int, y: int) -> int {
    if x * y > u128::MAX {
        u128::MAX as int
    } else {
        x * y
    }
}

/// Adds two quantities, saturating at the largest representable value.
pub fn saturating_add(x: u128, y: u128) -> (r: u128)
    ensures
        r == sat_add(x as int, y as int),
{
    x.saturating_add(y)
}

/// Subtracts `y` from `x`, saturating at zero.
pub fn saturating_sub(x: u128, y: u128) -> (r: u128)
    ensures
        r == sat_sub(x as int, y as int),
{
    x.saturating_sub(y)
}

/// Multiplies two quantities, saturating at the largest representable value.
pub fn saturating_mul(x: u128, y: u128) -> (r: u128)
    ensures
        r == sat_mul(x as int, y as int),
{
    match x.checked_mul(y) {
        Some(v) => v,
        None => u128::MAX,
    }
}

} // verus!
