//! The accrual calculator: continuous compounding on fixed-point integers.
//!
//! A stored principal and the seconds elapsed since its checkpoint are
//! converted into a present value by a per-second growth factor. The factor
//! `(1 + rate)^elapsed` (all values scaled by [`RATE_SCALE`]) is computed by
//! binary exponentiation with the product of each step taken exactly in 128
//! bits and rounded down, so compounding is checkpoint-interval-independent
//! up to that truncation. A negative elapsed time (clock skew or a stale
//! checkpoint) is an error, never accepted silently.

use vstd::prelude::*;
use crate::constants::RATE_SCALE;
use crate::error::ErrorCode;

verus! {

/// One fixed-point multiplication step, rounded down.
pub open spec fn scaled_mul(a: int, b: int) -> int {
    (a * b) / (RATE_SCALE as int)
}

/// The exact value computed by the binary-exponentiation loop from the
/// accumulator `acc`, the current power `base` and the remaining exponent
/// `e`; `None` when some 128-bit intermediate product would overflow.
pub open spec fn pow_accum(acc: int, base: int, e: int) -> Option<int>
    decreases e,
{
    if e <= 0 {
        Some(acc)
    } else if e % 2 == 1 && acc * base > u128::MAX {
        None
    } else {
        let acc2 = if e % 2 == 1 {
            scaled_mul(acc, base)
        } else {
            acc
        };
        if e / 2 == 0 {
            Some(acc2)
        } else if base * base > u128::MAX {
            None
        } else {
            pow_accum(acc2, scaled_mul(base, base), e / 2)
        }
    }
}

/// The growth factor `(1 + rate)^elapsed`, scaled by [`RATE_SCALE`];
/// `None` when its computation would overflow 128 bits.
pub open spec fn growth_factor(rate: int, elapsed: int) -> Option<int> {
    pow_accum(RATE_SCALE as int, RATE_SCALE as int + rate, elapsed)
}

/// The present value of `principal` after `elapsed` seconds at `rate`:
/// `floor(principal * growth_factor / RATE_SCALE)`; `None` when the factor
/// or the final product overflows its representation.
pub open spec fn accrued_value(principal: int, rate: int, elapsed: int) -> Option<int> {
    match growth_factor(rate, elapsed) {
        Option::None => Option::None,
        Option::Some(f) => if principal * f > u128::MAX {
            Option::None
        } else if scaled_mul(principal, f) > u64::MAX {
            Option::None
        } else {
            Option::Some(scaled_mul(principal, f))
        },
    }
}

/// A scaled product of two factors at least one stays at least either
/// factor: rounding down loses less than one whole scale unit.
proof fn lemma_scaled_mul_lower(a: int, b: int)
    by (nonlinear_arith)
    requires
        RATE_SCALE <= a,
        RATE_SCALE <= b,
    ensures
        a <= scaled_mul(a, b),
        b <= scaled_mul(a, b),
{
}

/// The scaled product is monotone in its second factor.
proof fn lemma_scaled_mul_monotone(a: int, b1: int, b2: int)
    by (nonlinear_arith)
    requires
        0 <= a,
        0 <= b1 <= b2,
    ensures
        scaled_mul(a, b1) <= scaled_mul(a, b2),
{
}

/// Multiplying by the scale itself is the identity.
proof fn lemma_scaled_mul_identity(a: int)
    by (nonlinear_arith)
    requires
        0 <= a,
    ensures
        scaled_mul(a, RATE_SCALE as int) == a,
{
}

/// A base equal to the scale (a zero per-second rate) leaves the
/// accumulator untouched for every exponent.
proof fn lemma_pow_accum_identity(acc: int, e: int)
    requires
        0 <= acc,
        acc * RATE_SCALE <= u128::MAX,
        RATE_SCALE * RATE_SCALE <= u128::MAX,
    ensures
        pow_accum(acc, RATE_SCALE as int, e) == Some(acc),
    decreases e,
{
    lemma_scaled_mul_identity(acc);
    lemma_scaled_mul_identity(RATE_SCALE as int);
    if e > 0 && e / 2 != 0 {
        lemma_pow_accum_identity(acc, e / 2);
    }
}

/// The loop's result never falls below its accumulator, and once the
/// exponent is positive it reaches at least one full multiplication by the
/// base.
proof fn lemma_pow_accum_lower(acc: int, base: int, e: int)
    requires
        RATE_SCALE <= acc,
        RATE_SCALE <= base,
        pow_accum(acc, base, e) is Some,
    ensures
        acc <= pow_accum(acc, base, e)->0,
        RATE_SCALE <= pow_accum(acc, base, e)->0,
        e >= 1 ==> scaled_mul(acc, base) <= pow_accum(acc, base, e)->0,
    decreases e,
{
    if e <= 0 {
    } else {
        let acc2 = if e % 2 == 1 {
            scaled_mul(acc, base)
        } else {
            acc
        };
        if e % 2 == 1 {
            lemma_scaled_mul_lower(acc, base);
        }
        if e / 2 == 0 {
        } else {
            let base2 = scaled_mul(base, base);
            lemma_scaled_mul_lower(base, base);
            lemma_pow_accum_lower(acc2, base2, e / 2);
            if e % 2 == 0 {
                // The recursive bound is in terms of base2; shrink it back
                // to base.
                lemma_scaled_mul_monotone(acc, base, base2);
            }
        }
    }
}

/// Computes the growth factor `(1 + rate)^elapsed` in 128 bits, scaled by
/// [`RATE_SCALE`]; `None` exactly when an intermediate product overflows.
fn growth_factor_u128(rate: u64, elapsed: u64) -> (r: Option<u128>)
    ensures
        r is Some <==> growth_factor(rate as int, elapsed as int) is Some,
        r is Some ==> r->0 == growth_factor(rate as int, elapsed as int)->0,
{
    let s: u128 = RATE_SCALE as u128;
    let mut acc: u128 = s;
    let mut base: u128 = s + rate as u128;
    let mut e: u64 = elapsed;
    loop
        invariant
            s == RATE_SCALE as u128,
            pow_accum(acc as int, base as int, e as int) == growth_factor(
                rate as int,
                elapsed as int,
            ),
        decreases e,
    {
        if e == 0 {
            return Some(acc);
        }
        if e % 2 == 1 {
            match acc.checked_mul(base) {
                Option::Some(p) => {
                    acc = p / s;
                },
                Option::None => {
                    return None;
                },
            }
        }
        e = e / 2;
        if e > 0 {
            match base.checked_mul(base) {
                Option::Some(p) => {
                    base = p / s;
                },
                Option::None => {
                    return None;
                },
            }
        }
    }
}

/// The present value of `total_deposit` after `time_diff` seconds of
/// continuous compounding at the scaled per-second `interest_rate`.
///
/// Fails with an arithmetic error exactly when the elapsed time is negative
/// (a checkpoint in the future) or the fixed-point computation overflows.
pub fn calculate_total_deposit_with_interest_accumulated(
    total_deposit: u64,
    interest_rate: u64,
    time_diff: i64,
) -> (r: Result<u64, ErrorCode>)
    ensures
        r is Ok <==> time_diff >= 0 && accrued_value(
            total_deposit as int,
            interest_rate as int,
            time_diff as int,
        ) is Some,
        r is Ok ==> r->Ok_0 == accrued_value(
            total_deposit as int,
            interest_rate as int,
            time_diff as int,
        )->0,
        r is Err ==> r->Err_0 == ErrorCode::ArithmeticError,
{
    if time_diff < 0 {
        return Err(ErrorCode::ArithmeticError);
    }
    let factor: u128 = match growth_factor_u128(interest_rate, time_diff as u64) {
        Option::Some(f) => f,
        Option::None => {
            return Err(ErrorCode::ArithmeticError);
        },
    };
    let product: u128 = match (total_deposit as u128).checked_mul(factor) {
        Option::Some(p) => p,
        Option::None => {
            return Err(ErrorCode::ArithmeticError);
        },
    };
    let value: u128 = product / (RATE_SCALE as u128);
    if value > u64::MAX as u128 {
        return Err(ErrorCode::ArithmeticError);
    }
    Ok(value as u64)
}

/// With no elapsed time the present value is the principal, exactly.
pub proof fn lemma_accrual_zero_elapsed(principal: u64, rate: u64)
    ensures
        accrued_value(principal as int, rate as int, 0) == Some(principal as int),
{
    assert(principal as int * RATE_SCALE <= u128::MAX) by (nonlinear_arith)
        requires
            principal <= u64::MAX;
    lemma_scaled_mul_identity(principal as int);
}

/// With a zero rate the present value is the principal for every elapsed
/// time: a pool that pays no interest never grows.
pub proof fn lemma_accrual_zero_rate(principal: u64, elapsed: int)
    ensures
        accrued_value(principal as int, 0, elapsed) == Some(principal as int),
{
    assert(principal as int * RATE_SCALE <= u128::MAX) by (nonlinear_arith)
        requires
            principal <= u64::MAX;
    lemma_pow_accum_identity(RATE_SCALE as int, elapsed);
    lemma_scaled_mul_identity(principal as int);
}

/// A zero principal stays zero under accrual: interest grows nothing out
/// of nothing.
pub proof fn lemma_accrued_zero_principal(rate: u64, elapsed: int)
    requires
        accrued_value(0, rate as int, elapsed) is Some,
    ensures
        accrued_value(0, rate as int, elapsed)->0 == 0,
{
    let f: int = growth_factor(rate as int, elapsed)->0;
    assert(scaled_mul(0, f) == 0) by (nonlinear_arith);
}

/// Accrued value never falls below the principal: the growth factor never
/// falls below one.
pub proof fn lemma_accrued_ge_principal(principal: u64, rate: u64, elapsed: int)
    requires
        elapsed >= 0,
        accrued_value(principal as int, rate as int, elapsed) is Some,
    ensures
        principal <= accrued_value(principal as int, rate as int, elapsed)->0,
{
    let s: int = RATE_SCALE as int;
    lemma_pow_accum_lower(s, s + rate as int, elapsed);
    let f: int = growth_factor(rate as int, elapsed)->0;
    lemma_scaled_mul_monotone(principal as int, s, f);
    lemma_scaled_mul_identity(principal as int);
}

/// Accrual monotonicity: with a positive rate and positive elapsed time the
/// present value never falls below the principal, and it strictly exceeds
/// the principal as soon as one second's interest on it amounts to at least
/// one integer unit. A unit of principal at a rate of one scale-billionth
/// per second gains less than a unit and is returned unchanged.
pub proof fn lemma_accrual_monotone(principal: u64, rate: u64, elapsed: int)
    requires
        rate >= 1,
        elapsed >= 1,
        accrued_value(principal as int, rate as int, elapsed) is Some,
    ensures
        principal <= accrued_value(principal as int, rate as int, elapsed)->0,
        principal as int * rate as int >= RATE_SCALE ==> principal
            < accrued_value(principal as int, rate as int, elapsed)->0,
{
    let s: int = RATE_SCALE as int;
    let p: int = principal as int;
    let r: int = rate as int;
    let f: int = growth_factor(r, elapsed)->0;
    lemma_pow_accum_lower(s, s + r, elapsed);
    lemma_scaled_mul_identity(s);
    assert(scaled_mul(s, s + r) == s + r) by {
        assert((s * (s + r)) / s == s + r) by (nonlinear_arith)
            requires
                s == RATE_SCALE as int,
                0 <= r;
    }
    assert(f >= s + r);
    lemma_scaled_mul_monotone(p, s + r, f);
    assert(scaled_mul(p, s + r) == p + (p * r) / s) by (nonlinear_arith)
        requires
            s == RATE_SCALE as int,
            0 <= p,
            0 <= r;
    assert((p * r) / s >= 0) by (nonlinear_arith)
        requires
            s == RATE_SCALE as int,
            0 <= p,
            0 <= r;
    if p * r >= s {
        assert((p * r) / s >= 1) by (nonlinear_arith)
            requires
                s == RATE_SCALE as int,
                p * r >= s;
    }
}

} // verus!
