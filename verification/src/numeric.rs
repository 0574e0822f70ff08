//! Small arithmetic helpers shared by the scheduling policies.

use vstd::prelude::*;

verus! {

/// Minimum of two mathematical integers.
pub open spec fn imin(a: int, b: int) -> int {
    if a <= b {
        a
    } else {
        b
    }
}

/// Maximum of two mathematical integers.
pub open spec fn imax(a: int, b: int) -> int {
    if a >= b {
        a
    } else {
        b
    }
}

/// Clamp a mathematical integer into the `u64` range.
pub open spec fn clamp_u64(x: int) -> u64 {
    if x > u64::MAX {
        u64::MAX
    } else if x < 0 {
        0
    } else {
        x as u64
    }
}

/// Minimum of two `u128` values.
pub fn min_u128(a: u128, b: u128) -> (r: u128)
    ensures
        r == imin(a as int, b as int),
{
    if a <= b {
        a
    } else {
        b
    }
}

/// The product of two values in the `u64` range fits a `u128`.
pub proof fn lemma_u64_mul_fits_u128(a: int, b: int)
    requires
        0 <= a <= u64::MAX as int,
        0 <= b <= u64::MAX as int,
    ensures
        0 <= a * b <= u128::MAX as int,
{
    assert(0 <= a * b <= (u64::MAX as int) * (u64::MAX as int) < u128::MAX as int)
        by (nonlinear_arith)
        requires
            0 <= a <= u64::MAX as int,
            0 <= b <= u64::MAX as int,
    ;
}

/// Multiplication on `u128` that clamps at the top of the range.  Used where
/// a product of already huge operands only ever feeds a minimum with a much
/// smaller quantity, so clamping cannot change any decision.
pub fn sat_mul_u128(a: u128, b: u128) -> (r: u128)
    ensures
        r == imin(a as int * b as int, u128::MAX as int),
{
    match a.checked_mul(b) {
        Some(p) => p,
        None => u128::MAX,
    }
}

} // verus!
