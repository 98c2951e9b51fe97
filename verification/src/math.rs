//! Checked multiply-before-divide arithmetic on `u64` amounts.
//!
//! Share minting and burning, valuation and the liquidation formulas all
//! compute `a * b / d`, with the product taken exactly in 128 bits before the
//! division so that no precision is lost, and with the rounding direction
//! chosen per operation: down when crediting a caller, up when debiting one.

use vstd::prelude::*;

verus! {

/// `floor(a * b / d)`, the rounding that credits: the caller never receives
/// more than the exact ratio.
pub open spec fn mul_div_floor(a: int, b: int, d: int) -> int {
    (a * b) / d
}

/// `ceil(a * b / d)`, the rounding that debits: the caller is never charged
/// less than the exact ratio.
pub open spec fn mul_div_ceil(a: int, b: int, d: int) -> int {
    (a * b + d - 1) / d
}

/// Whether `floor(a * b / d)` fits in a `u64`.
pub open spec fn mul_div_floor_fits(a: int, b: int, d: int) -> bool {
    mul_div_floor(a, b, d) <= u64::MAX
}

/// Whether `ceil(a * b / d)` fits in a `u64`.
pub open spec fn mul_div_ceil_fits(a: int, b: int, d: int) -> bool {
    mul_div_ceil(a, b, d) <= u64::MAX
}

/// The product of two `u64` values fits in a `u128`.
pub proof fn lemma_u64_mul_fits_u128(a: u64, b: u64)
    by (nonlinear_arith)
    ensures
        a as int * b as int <= u128::MAX,
{
}

/// The quotient of non-negative values is non-negative and bounded by the
/// dividend when the divisor is at least one.
proof fn lemma_div_bounds(x: int, d: int)
    by (nonlinear_arith)
    requires
        0 <= x,
        0 < d,
    ensures
        0 <= x / d <= x,
{
}

/// `a * b / d` computed exactly over `u128`, rounded down; `None` exactly
/// when the mathematical result does not fit in a `u64`.
pub fn mul_div_floor_u64(a: u64, b: u64, d: u64) -> (r: Option<u64>)
    requires
        d > 0,
    ensures
        r is Some <==> mul_div_floor(a as int, b as int, d as int) <= u64::MAX,
        r is Some ==> r->0 == mul_div_floor(a as int, b as int, d as int),
{
    proof {
        lemma_u64_mul_fits_u128(a, b);
    }
    let p: u128 = (a as u128) * (b as u128);
    let q: u128 = p / (d as u128);
    proof {
        lemma_div_bounds(p as int, d as int);
    }
    if q <= u64::MAX as u128 {
        Some(q as u64)
    } else {
        None
    }
}

/// `a * b / d` computed exactly over `u128`, rounded up; `None` exactly when
/// the mathematical result does not fit in a `u64`.
pub fn mul_div_ceil_u64(a: u64, b: u64, d: u64) -> (r: Option<u64>)
    requires
        d > 0,
    ensures
        r is Some <==> mul_div_ceil(a as int, b as int, d as int) <= u64::MAX,
        r is Some ==> r->0 == mul_div_ceil(a as int, b as int, d as int),
{
    proof {
        lemma_u64_mul_fits_u128(a, b);
        // The product of two u64 values leaves room in a u128 for the
        // rounding summand d - 1.
        assert(a as int * b as int + d as int - 1 <= u128::MAX) by (nonlinear_arith)
            requires
                a <= u64::MAX,
                b <= u64::MAX,
                d <= u64::MAX;
    }
    let p: u128 = (a as u128) * (b as u128);
    let s: u128 = p + (d as u128 - 1);
    let q: u128 = s / (d as u128);
    proof {
        lemma_div_bounds(s as int, d as int);
    }
    if q <= u64::MAX as u128 {
        Some(q as u64)
    } else {
        None
    }
}

/// A value within a holding's floor-valuation burns, rounded up, no more
/// shares than the holding: from `value <= floor(holding * total_value /
/// total_shares)` follows `ceil(value * total_shares / total_value) <=
/// holding`.
pub proof fn lemma_burn_within_holding(
    value: int,
    holding: int,
    total_value: int,
    total_shares: int,
)
    requires
        1 <= total_value,
        1 <= total_shares,
        0 <= value,
        0 <= holding,
        value <= (holding * total_value) / total_shares,
    ensures
        (value * total_shares + total_value - 1) / total_value <= holding,
{
    assert(value * total_shares <= holding * total_value) by (nonlinear_arith)
        requires
            1 <= total_shares,
            0 <= value,
            0 <= holding,
            0 <= total_value,
            value <= (holding * total_value) / total_shares;
    assert((value * total_shares + total_value - 1) / total_value <= holding) by (nonlinear_arith)
        requires
            1 <= total_value,
            0 <= holding,
            value * total_shares <= holding * total_value;
}

/// Multiplying by the divisor itself is the identity under either rounding.
pub proof fn lemma_mul_div_identity(a: int, d: int)
    by (nonlinear_arith)
    requires
        0 <= a,
        0 < d,
    ensures
        mul_div_floor(a, d, d) == a,
        mul_div_ceil(a, d, d) == a,
{
}

} // verus!
