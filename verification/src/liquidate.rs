//! Liquidate: a third party repays part of an unhealthy position's debt and
//! seizes collateral with a bonus.
//!
//! The attempt is a single transition: accrue both pools, value collateral
//! and debt at the supplied prices, gate on the health factor, compute the
//! close-factor repay amount and the bonus-bearing seizure, and burn shares
//! on both sides as a repayment and a withdrawal would. The caller performs
//! both transfers — the repay amount from the liquidator into the borrowed
//! pool, the seized collateral from the collateral pool to the liquidator —
//! and commits all three records only with both transfers' success; on any
//! error nothing is to be committed.

use vstd::prelude::*;
use crate::constants::FRACTION_SCALE;
use crate::error::ErrorCode;
use crate::health::common_value;
use crate::health::common_value_spec;
use crate::health::is_liquidatable;
use crate::health::is_liquidatable_spec;
use crate::math::mul_div_ceil;
use crate::math::mul_div_floor;
use crate::math::mul_div_floor_u64;
use crate::shares::shares_to_burn;
use crate::shares::shares_to_burn_spec;
use crate::shares::shares_value;
use crate::shares::shares_value_spec;
use crate::state::accrue_bank;
use crate::state::accrue_bank_spec;
use crate::state::user_consistent_with;
use crate::state::AssetPosition;
use crate::state::Bank;
use crate::state::User;

verus! {

/// The committed outcome of a liquidation: the three updated records and
/// the two transfer amounts the caller must move.
#[derive(Clone, Copy, Debug, PartialEq, Eq, Structural)]
pub struct LiquidationOutcome {
    /// The collateral pool after the seizure.
    pub collateral_bank: Bank,
    /// The borrowed pool after the repayment.
    pub borrowed_bank: Bank,
    /// The target position after both burns.
    pub user: User,
    /// Borrowed-asset amount the liquidator pays into the borrowed pool.
    pub liquidation_amount: u64,
    /// Collateral-asset amount the collateral pool pays the liquidator.
    pub collateral_seized: u64,
}

/// The fraction of the debt value one liquidation repays:
/// `floor(borrowed_value * close_factor / FRACTION_SCALE)`.
pub open spec fn liquidation_amount_spec(borrowed_value: u64, close_factor: u64) -> int {
    mul_div_floor(borrowed_value as int, close_factor as int, FRACTION_SCALE as int)
}

/// The seizure the repayment earns, bonus included:
/// `floor(liquidation_amount * (1 + bonus) / FRACTION_SCALE)`.
pub open spec fn collateral_seized_spec(liquidation_amount: int, bonus: u64) -> int {
    mul_div_floor(liquidation_amount, FRACTION_SCALE as int + bonus as int, FRACTION_SCALE as int)
}

/// What a liquidation attempt at time `now` does: both accrued pools and
/// the user after the repay-side and collateral-side burns, with the two
/// transfer amounts, or the first error on the way — an accrual's own, a
/// valuation leaving the ledger's range, a health factor not below one, a
/// seizure over the position's collateral, a repayment over the position's
/// debt, or a burn over the position's shares. A burn that takes a side's
/// last share also clears the side's residual value, keeping value and
/// shares zero together.
pub open spec fn liquidate_spec(
    collateral_bank: Bank,
    borrowed_bank: Bank,
    user: User,
    collateral_price: u64,
    borrowed_price: u64,
    now: i64,
) -> Result<LiquidationOutcome, ErrorCode> {
    match (accrue_bank_spec(collateral_bank, now), accrue_bank_spec(borrowed_bank, now)) {
        (Result::Ok(acb), Result::Ok(abb)) => {
            let cs = user.side_spec(collateral_bank.mint_address);
            let bs = user.side_spec(borrowed_bank.mint_address);
            let cp = user.position_spec(cs);
            let bp = user.position_spec(bs);
            let cav = shares_value_spec(
                cp.deposited_shares,
                acb.total_deposits,
                acb.total_deposits_shares,
            );
            let cv = common_value_spec(cav as u64, collateral_price);
            let bav = shares_value_spec(
                bp.borrowed_shares,
                abb.total_borrowed,
                abb.total_borrowed_shares,
            );
            let bv = common_value_spec(bav as u64, borrowed_price);
            if cv > u64::MAX || bv > u64::MAX {
                Result::Err(ErrorCode::ArithmeticError)
            } else if !is_liquidatable_spec(cv as u64, acb.liquidation_threshold, bv as u64) {
                Result::Err(ErrorCode::DoesNotFallBelowHealthFactor)
            } else {
                let liq = liquidation_amount_spec(bv as u64, abb.liquidation_close_factor);
                let seized = collateral_seized_spec(liq, acb.liquidation_bonus);
                if seized > u64::MAX {
                    Result::Err(ErrorCode::ArithmeticError)
                } else if seized > cav {
                    Result::Err(ErrorCode::InsufficientCollateral)
                } else if liq > bav {
                    Result::Err(ErrorCode::OverRepayAmount)
                } else {
                    let burn_b = shares_to_burn_spec(
                        liq as u64,
                        abb.total_borrowed,
                        abb.total_borrowed_shares,
                    );
                    let burn_c = shares_to_burn_spec(
                        seized as u64,
                        acb.total_deposits,
                        acb.total_deposits_shares,
                    );
                    if burn_b > bp.borrowed_shares || burn_c > cp.deposited_shares {
                        Result::Err(ErrorCode::InsufficientShares)
                    } else {
                        Result::Ok(
                            LiquidationOutcome {
                                collateral_bank: Bank {
                                    total_deposits: if burn_c == acb.total_deposits_shares {
                                        0u64
                                    } else {
                                        (acb.total_deposits - seized) as u64
                                    },
                                    total_deposits_shares: (acb.total_deposits_shares
                                        - burn_c) as u64,
                                    ..acb
                                },
                                borrowed_bank: Bank {
                                    total_borrowed: if burn_b == abb.total_borrowed_shares {
                                        0u64
                                    } else {
                                        (abb.total_borrowed - liq) as u64
                                    },
                                    total_borrowed_shares: (abb.total_borrowed_shares
                                        - burn_b) as u64,
                                    ..abb
                                },
                                user: User {
                                    last_updated: now,
                                    last_updated_borrowed: now,
                                    ..user.with_position_spec(
                                        bs,
                                        AssetPosition {
                                            borrowed_shares: (bp.borrowed_shares - burn_b) as u64,
                                            ..bp
                                        },
                                    ).with_position_spec(
                                        cs,
                                        AssetPosition {
                                            deposited_shares: (cp.deposited_shares
                                                - burn_c) as u64,
                                            ..cp
                                        },
                                    )
                                },
                                liquidation_amount: liq as u64,
                                collateral_seized: seized as u64,
                            },
                        )
                    }
                }
            }
        },
        (Result::Err(e), _) => Result::Err(e),
        (_, Result::Err(e)) => Result::Err(e),
    }
}

/// Attempts to liquidate the user's position; returns the records to
/// commit and the two transfer amounts, which the caller must move
/// atomically with the commit.
pub fn liquidate(
    collateral_bank: &Bank,
    borrowed_bank: &Bank,
    user: &User,
    collateral_price: u64,
    borrowed_price: u64,
    now: i64,
) -> (r: Result<LiquidationOutcome, ErrorCode>)
    requires
        collateral_bank.wf(),
        borrowed_bank.wf(),
        user_consistent_with(*user, *collateral_bank),
        user_consistent_with(*user, *borrowed_bank),
        user.side_spec(borrowed_bank.mint_address) != user.side_spec(
            collateral_bank.mint_address,
        ),
    ensures
        r == liquidate_spec(
            *collateral_bank,
            *borrowed_bank,
            *user,
            collateral_price,
            borrowed_price,
            now,
        ),
        r is Ok ==> (r->Ok_0).collateral_bank.wf() && (r->Ok_0).borrowed_bank.wf(),
        r is Ok ==> user_consistent_with((r->Ok_0).user, (r->Ok_0).collateral_bank)
            && user_consistent_with((r->Ok_0).user, (r->Ok_0).borrowed_bank),
{
    let acb = match accrue_bank(collateral_bank, now) {
        Ok(b) => b,
        Err(e) => {
            return Err(e);
        },
    };
    let abb = match accrue_bank(borrowed_bank, now) {
        Ok(b) => b,
        Err(e) => {
            return Err(e);
        },
    };
    proof {
        // Both accrued pools are still well-formed: value and shares stay
        // zero together on every side.
        crate::state::lemma_accrue_bank_wf(*collateral_bank, now);
        crate::state::lemma_accrue_bank_wf(*borrowed_bank, now);
    }
    let cs = user.side_of(collateral_bank.mint_address);
    let bs = user.side_of(borrowed_bank.mint_address);
    let cp = user.position(cs);
    let bp = user.position(bs);
    let cav = shares_value(cp.deposited_shares, acb.total_deposits, acb.total_deposits_shares);
    let cv = match common_value(cav, collateral_price) {
        Ok(v) => v,
        Err(e) => {
            return Err(e);
        },
    };
    let bav = shares_value(bp.borrowed_shares, abb.total_borrowed, abb.total_borrowed_shares);
    let bv = match common_value(bav, borrowed_price) {
        Ok(v) => v,
        Err(e) => {
            return Err(e);
        },
    };
    if !is_liquidatable(cv, acb.liquidation_threshold, bv) {
        return Err(ErrorCode::DoesNotFallBelowHealthFactor);
    }
    proof {
        // The close-factor fraction of the debt value stays within it.
        assert(liquidation_amount_spec(bv, abb.liquidation_close_factor) <= bv)
            by (nonlinear_arith)
            requires
                0 <= bv,
                0 <= abb.liquidation_close_factor <= FRACTION_SCALE,
                FRACTION_SCALE > 0;
    }
    let liq = match mul_div_floor_u64(bv, abb.liquidation_close_factor, FRACTION_SCALE) {
        Option::Some(v) => v,
        Option::None => {
            // Unreachable: the amount is bounded by the debt value, a u64.
            proof {
                assert(false);
            }
            0
        },
    };
    let seized = match mul_div_floor_u64(liq, FRACTION_SCALE + acb.liquidation_bonus,
        FRACTION_SCALE) {
        Option::Some(v) => v,
        Option::None => {
            return Err(ErrorCode::ArithmeticError);
        },
    };
    if seized > cav {
        return Err(ErrorCode::InsufficientCollateral);
    }
    if liq > bav {
        return Err(ErrorCode::OverRepayAmount);
    }
    let burn_b = shares_to_burn(liq, abb.total_borrowed, abb.total_borrowed_shares);
    let burn_c = shares_to_burn(seized, acb.total_deposits, acb.total_deposits_shares);
    if burn_b > bp.borrowed_shares || burn_c > cp.deposited_shares {
        return Err(ErrorCode::InsufficientShares);
    }
    proof {
        // Draining a whole side burns all its shares: the ceiling of a
        // whole is the whole.
        if liq == abb.total_borrowed && liq > 0 {
            assert(mul_div_ceil(liq as int, abb.total_borrowed_shares as int, liq as int)
                == abb.total_borrowed_shares) by (nonlinear_arith)
                requires
                    liq > 0;
        }
        if seized == acb.total_deposits && seized > 0 {
            assert(mul_div_ceil(seized as int, acb.total_deposits_shares as int, seized as int)
                == acb.total_deposits_shares) by (nonlinear_arith)
                requires
                    seized > 0;
        }
    }
    let new_collateral_bank = Bank {
        total_deposits: if burn_c == acb.total_deposits_shares {
            0
        } else {
            acb.total_deposits - seized
        },
        total_deposits_shares: acb.total_deposits_shares - burn_c,
        ..acb
    };
    let new_borrowed_bank = Bank {
        total_borrowed: if burn_b == abb.total_borrowed_shares {
            0
        } else {
            abb.total_borrowed - liq
        },
        total_borrowed_shares: abb.total_borrowed_shares - burn_b,
        ..abb
    };
    let mut new_user = *user;
    new_user.set_position(bs, AssetPosition { borrowed_shares: bp.borrowed_shares - burn_b, ..bp });
    let cp2 = new_user.position(cs);
    new_user.set_position(
        cs,
        AssetPosition { deposited_shares: cp2.deposited_shares - burn_c, ..cp2 },
    );
    new_user.last_updated = now;
    new_user.last_updated_borrowed = now;
    Ok(
        LiquidationOutcome {
            collateral_bank: new_collateral_bank,
            borrowed_bank: new_borrowed_bank,
            user: new_user,
            liquidation_amount: liq,
            collateral_seized: seized,
        },
    )
}

/// Liquidation gating: when both accruals succeed and both valuations stay
/// in the ledger's range, an attempt fails with
/// does-not-fall-below-health-factor exactly when the position is healthy;
/// and against an unhealthy position it succeeds, updating both ledgers,
/// whenever the seizure is representable, the collateral covers it, and the
/// debt covers the repayment.
pub proof fn lemma_liquidation_gating(
    collateral_bank: Bank,
    borrowed_bank: Bank,
    user: User,
    collateral_price: u64,
    borrowed_price: u64,
    now: i64,
)
    requires
        collateral_bank.wf(),
        borrowed_bank.wf(),
        user_consistent_with(user, collateral_bank),
        user_consistent_with(user, borrowed_bank),
        user.side_spec(borrowed_bank.mint_address) != user.side_spec(
            collateral_bank.mint_address,
        ),
        accrue_bank_spec(collateral_bank, now) is Ok,
        accrue_bank_spec(borrowed_bank, now) is Ok,
        crate::borrow::collateral_value_spec(collateral_bank, user, collateral_price, now)
            <= u64::MAX,
        crate::borrow::debt_value_spec(borrowed_bank, user, borrowed_price, now) <= u64::MAX,
    ensures
        ({
            let r = liquidate_spec(
                collateral_bank,
                borrowed_bank,
                user,
                collateral_price,
                borrowed_price,
                now,
            );
            let cv = crate::borrow::collateral_value_spec(
                collateral_bank,
                user,
                collateral_price,
                now,
            );
            let bv = crate::borrow::debt_value_spec(borrowed_bank, user, borrowed_price, now);
            let cav = crate::borrow::collateral_asset_value_spec(collateral_bank, user, now);
            let bav = crate::borrow::debt_asset_value_spec(borrowed_bank, user, now);
            let liq = liquidation_amount_spec(bv as u64, borrowed_bank.liquidation_close_factor);
            let seized = collateral_seized_spec(liq, collateral_bank.liquidation_bonus);
            &&& (r == Result::<LiquidationOutcome, ErrorCode>::Err(
                ErrorCode::DoesNotFallBelowHealthFactor,
            ) <==> !is_liquidatable_spec(
                cv as u64,
                collateral_bank.liquidation_threshold,
                bv as u64,
            ))
            &&& (is_liquidatable_spec(cv as u64, collateral_bank.liquidation_threshold, bv as u64)
                && seized <= u64::MAX && seized <= cav && liq <= bav ==> r is Ok)
        }),
{
    let acb = accrue_bank_spec(collateral_bank, now)->Ok_0;
    let abb = accrue_bank_spec(borrowed_bank, now)->Ok_0;
    let cp = user.position_spec(user.side_spec(collateral_bank.mint_address));
    let bp = user.position_spec(user.side_spec(borrowed_bank.mint_address));
    let cav = crate::borrow::collateral_asset_value_spec(collateral_bank, user, now);
    let bav = crate::borrow::debt_asset_value_spec(borrowed_bank, user, now);
    let bv = crate::borrow::debt_value_spec(borrowed_bank, user, borrowed_price, now);
    let liq = liquidation_amount_spec(bv as u64, borrowed_bank.liquidation_close_factor);
    let seized = collateral_seized_spec(liq, collateral_bank.liquidation_bonus);
    // The repay fraction of the debt value stays within it, so the amounts
    // below are representable.
    assert(liq <= bv) by (nonlinear_arith)
        requires
            0 <= bv,
            0 <= borrowed_bank.liquidation_close_factor,
            borrowed_bank.liquidation_close_factor <= FRACTION_SCALE,
            liq == (bv * borrowed_bank.liquidation_close_factor) as int / (FRACTION_SCALE as int);
    if liq >= 1 && liq <= bav {
        // A repayment within the accrued debt burns no more shares than
        // the position holds.
        crate::math::lemma_burn_within_holding(
            liq,
            bp.borrowed_shares as int,
            abb.total_borrowed as int,
            abb.total_borrowed_shares as int,
        );
        assert(shares_to_burn_spec(liq as u64, abb.total_borrowed, abb.total_borrowed_shares)
            <= bp.borrowed_shares);
    }
    if seized >= 1 && seized <= cav && seized <= u64::MAX {
        // A seizure within the accrued collateral burns no more shares
        // than the position holds, by the same bound.
        crate::math::lemma_burn_within_holding(
            seized,
            cp.deposited_shares as int,
            acb.total_deposits as int,
            acb.total_deposits_shares as int,
        );
        assert(shares_to_burn_spec(seized as u64, acb.total_deposits, acb.total_deposits_shares)
            <= cp.deposited_shares);
    }
}

} // verus!
