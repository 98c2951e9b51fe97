//! The share accounting engine: conversion between absolute value and
//! proportional shares of one side of one pool.
//!
//! Shares price against the side's accrued totals. Minting rounds down
//! (never credit more than the exact ratio); burning rounds up (never
//! undercharge shares for a withdrawal), so rounding always favours the
//! remaining shareholders. The first deposit into an empty side mints
//! shares one-to-one with value.

use vstd::prelude::*;
use crate::error::ErrorCode;
use crate::math::mul_div_ceil;
use crate::math::mul_div_ceil_u64;
use crate::math::mul_div_floor;
use crate::math::mul_div_floor_u64;

verus! {

/// The shares minted when `value_in` enters a side holding `total_value`
/// against `total_shares`: one-to-one on an empty side, else
/// `floor(value_in * total_shares / total_value)`. A zero value is
/// rejected, as is a product of shares that no longer fits the ledger.
pub open spec fn mint_shares_spec(value_in: u64, total_value: u64, total_shares: u64) -> Result<
    u64,
    ErrorCode,
> {
    if value_in == 0 {
        Result::Err(ErrorCode::ArithmeticError)
    } else if total_shares == 0 {
        Result::Ok(value_in)
    } else if mul_div_floor(value_in as int, total_shares as int, total_value as int)
        <= u64::MAX {
        Result::Ok(mul_div_floor(value_in as int, total_shares as int, total_value as int) as u64)
    } else {
        Result::Err(ErrorCode::ArithmeticError)
    }
}

/// The shares burned to release `value_out` from a side holding
/// `total_value` against `total_shares`:
/// `ceil(value_out * total_shares / total_value)`, and none for no value.
pub open spec fn shares_to_burn_spec(value_out: u64, total_value: u64, total_shares: u64) -> int {
    if value_out == 0 {
        0
    } else {
        mul_div_ceil(value_out as int, total_shares as int, total_value as int)
    }
}

/// The value a holding of `shares` represents against a side's accrued
/// totals: `floor(shares * total_value / total_shares)`, and zero on an
/// empty side (value per share is one where no shares exist, but then no
/// shares are held either).
pub open spec fn shares_value_spec(shares: u64, total_value: u64, total_shares: u64) -> int {
    if total_shares == 0 {
        0
    } else {
        mul_div_floor(shares as int, total_value as int, total_shares as int)
    }
}

/// Mints shares for value entering one side of a pool.
pub fn mint_shares(value_in: u64, total_value: u64, total_shares: u64) -> (r: Result<
    u64,
    ErrorCode,
>)
    requires
        total_value == 0 ==> total_shares == 0,
    ensures
        r == mint_shares_spec(value_in, total_value, total_shares),
{
    if value_in == 0 {
        return Err(ErrorCode::ArithmeticError);
    }
    if total_shares == 0 {
        return Ok(value_in);
    }
    match mul_div_floor_u64(value_in, total_shares, total_value) {
        Option::Some(s) => Ok(s),
        Option::None => Err(ErrorCode::ArithmeticError),
    }
}

/// Computes the shares to burn for value leaving one side of a pool. The
/// result never exceeds `total_shares`, because no more value can leave
/// than the side holds.
pub fn shares_to_burn(value_out: u64, total_value: u64, total_shares: u64) -> (r: u64)
    requires
        value_out > 0 ==> 0 < total_value,
        value_out <= total_value,
    ensures
        r == shares_to_burn_spec(value_out, total_value, total_shares),
        r <= total_shares,
{
    if value_out == 0 {
        return 0;
    }
    proof {
        // Rounding up stays within the side's own shares: the burned value
        // is at most the side's whole value.
        assert(mul_div_ceil(value_out as int, total_shares as int, total_value as int)
            <= total_shares) by (nonlinear_arith)
            requires
                0 < total_value,
                value_out <= total_value,
                0 <= total_shares;
    }
    match mul_div_ceil_u64(value_out, total_shares, total_value) {
        Option::Some(s) => s,
        Option::None => {
            // Unreachable: the ceiling is bounded by total_shares, a u64.
            proof {
                assert(false);
            }
            0
        },
    }
}

/// Converts a share holding to its current value. The result never exceeds
/// `total_value`, because no holder owns more shares than are outstanding.
pub fn shares_value(shares: u64, total_value: u64, total_shares: u64) -> (r: u64)
    requires
        shares <= total_shares,
    ensures
        r == shares_value_spec(shares, total_value, total_shares),
        r <= total_value,
{
    if total_shares == 0 {
        return 0;
    }
    proof {
        // A holding within the outstanding shares is worth at most the
        // side's whole value.
        assert(mul_div_floor(shares as int, total_value as int, total_shares as int)
            <= total_value) by (nonlinear_arith)
            requires
                0 < total_shares,
                shares <= total_shares,
                0 <= total_value;
    }
    match mul_div_floor_u64(shares, total_value, total_shares) {
        Option::Some(v) => v,
        Option::None => {
            // Unreachable: the floor is bounded by total_value, a u64.
            proof {
                assert(false);
            }
            0
        },
    }
}

/// At par — when a side's value equals its shares — minting is exactly
/// one-to-one, as at bootstrap.
pub proof fn lemma_mint_at_par(value_in: u64, total: u64)
    requires
        value_in > 0,
    ensures
        mint_shares_spec(value_in, total, total) == Result::<u64, ErrorCode>::Ok(value_in),
{
    if total != 0 {
        crate::math::lemma_mul_div_identity(value_in as int, total as int);
    }
}

/// Burning the shares a value just minted releases that value again: the
/// ceiling of the burn meets the floor of the mint exactly at par.
pub proof fn lemma_burn_inverts_mint_at_par(value: u64, total: u64)
    requires
        value <= u64::MAX - total,
    ensures
        shares_to_burn_spec(value, (total + value) as u64, (total + value) as u64) == value as int,
{
    if value > 0 {
        crate::math::lemma_mul_div_identity(value as int, (total + value) as int);
    }
}

} // verus!
