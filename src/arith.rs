//! Saturating arithmetic on `u128`.
use vstd::prelude::*;

verus! {

/// `x` clamped to the range of `u128`.
pub open spec fn clamp(x: int) -> u128 {
    if x > u128::MAX {
        u128::MAX
    } else {
        x as u128
    }
}

/// The sum of `a` and `b`, clamped at `u128::MAX`.
pub open spec fn sat_add(a: u128, b: u128) -> u128 {
    clamp(a + b)
}

/// The product of `a` and `b`, clamped at `u128::MAX`.
pub open spec fn sat_mul(a: u128, b: u128) -> u128 {
    clamp(a * b)
}

/// `a * b`, or `u128::MAX` where the product does not fit.
pub fn saturating_mul(a: u128, b: u128) -> (r: u128)
    ensures
        r == sat_mul(a, b),
{
    match a.checked_mul(b) {
        Some(p) => p,
        None => u128::MAX,
    }
}

} // verus!
