//! The valuation and health engine: collateral and debt positions are
//! converted into a common unit using externally supplied prices, and the
//! health factor decides what may be borrowed and who may be liquidated.
//!
//! The health factor is the ratio of risk-weighted collateral value to
//! borrowed value; a position is liquidatable exactly when it is below one.
//! The engine never forms the ratio: it compares the cross-products, so the
//! decision is exact.

use vstd::prelude::*;
use crate::constants::FRACTION_SCALE;
use crate::constants::PRICE_SCALE;
use crate::error::ErrorCode;
use crate::math::mul_div_floor;
use crate::math::mul_div_floor_u64;

verus! {

/// An amount of an asset valued in the common unit at a scaled price:
/// `floor(asset_value * price / PRICE_SCALE)`.
pub open spec fn common_value_spec(asset_value: u64, price: u64) -> int {
    mul_div_floor(asset_value as int, price as int, PRICE_SCALE as int)
}

/// The largest debt value a collateral value supports under a pool's
/// liquidation threshold: `floor(collateral_value * threshold /
/// FRACTION_SCALE)`.
pub open spec fn borrowable_amount_spec(collateral_value: u64, threshold: u64) -> int {
    mul_div_floor(collateral_value as int, threshold as int, FRACTION_SCALE as int)
}

/// Whether a position may be liquidated: its health factor,
/// `(collateral_value * threshold / FRACTION_SCALE) / borrowed_value`, is
/// below one. With no debt the factor is unbounded and the position is
/// healthy; the cross-product comparison gives that for free.
pub open spec fn is_liquidatable_spec(
    collateral_value: u64,
    threshold: u64,
    borrowed_value: u64,
) -> bool {
    (collateral_value as int) * (threshold as int) < (borrowed_value as int) * (
    FRACTION_SCALE as int)
}

/// Values an asset amount in the common unit; fails exactly when the value
/// exceeds the ledger's range.
pub fn common_value(asset_value: u64, price: u64) -> (r: Result<u64, ErrorCode>)
    ensures
        r is Ok <==> common_value_spec(asset_value, price) <= u64::MAX,
        r is Ok ==> r->Ok_0 == common_value_spec(asset_value, price),
        r is Err ==> r->Err_0 == ErrorCode::ArithmeticError,
{
    match mul_div_floor_u64(asset_value, price, PRICE_SCALE) {
        Option::Some(v) => Ok(v),
        Option::None => Err(ErrorCode::ArithmeticError),
    }
}

/// The borrowable amount for a collateral value; a fraction of at most one
/// keeps it within the collateral value itself.
pub fn borrowable_amount(collateral_value: u64, threshold: u64) -> (r: u64)
    requires
        threshold <= FRACTION_SCALE,
    ensures
        r == borrowable_amount_spec(collateral_value, threshold),
        r <= collateral_value,
{
    proof {
        // A fraction of at most one of the collateral value stays within it.
        assert(mul_div_floor(collateral_value as int, threshold as int, FRACTION_SCALE as int)
            <= collateral_value) by (nonlinear_arith)
            requires
                0 <= collateral_value,
                0 <= threshold <= FRACTION_SCALE,
                FRACTION_SCALE > 0;
    }
    match mul_div_floor_u64(collateral_value, threshold, FRACTION_SCALE) {
        Option::Some(v) => v,
        Option::None => {
            // Unreachable: the amount is bounded by collateral_value, a u64.
            proof {
                assert(false);
            }
            0
        },
    }
}

/// Decides liquidatability by comparing the cross-products exactly.
pub fn is_liquidatable(collateral_value: u64, threshold: u64, borrowed_value: u64) -> (r: bool)
    ensures
        r == is_liquidatable_spec(collateral_value, threshold, borrowed_value),
{
    proof {
        crate::math::lemma_u64_mul_fits_u128(collateral_value, threshold);
        crate::math::lemma_u64_mul_fits_u128(borrowed_value, FRACTION_SCALE);
    }
    (collateral_value as u128) * (threshold as u128) < (borrowed_value as u128) * (
    FRACTION_SCALE as u128)
}

/// Liquidation gating is sound and complete against the borrowable amount:
/// a position is liquidatable exactly when its debt value strictly exceeds
/// what its collateral supports, up to the floor the borrowable amount
/// takes.
pub proof fn lemma_liquidatable_iff_over_limit(
    collateral_value: u64,
    threshold: u64,
    borrowed_value: u64,
)
    by (nonlinear_arith)
    requires
        threshold <= FRACTION_SCALE,
    ensures
        is_liquidatable_spec(collateral_value, threshold, borrowed_value) <==> borrowable_amount_spec(
            collateral_value,
            threshold,
        ) < borrowed_value,
{
}

} // verus!
