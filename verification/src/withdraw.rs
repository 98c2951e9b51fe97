//! Withdraw: value leaves a pool's deposit side and burns deposit shares.
//!
//! The operation accrues the pool, checks the caller's accrued deposit
//! value and the pool's un-borrowed liquidity, burns the corresponding
//! shares rounding up, and debits pool and user. The caller transfers the
//! amount (pool to user) and commits the records with that transfer.

use vstd::prelude::*;
use crate::error::ErrorCode;
use crate::math::mul_div_ceil;
use crate::shares::shares_to_burn;
use crate::shares::shares_to_burn_spec;
use crate::shares::shares_value;
use crate::shares::shares_value_spec;
use crate::state::accrue_bank;
use crate::state::accrue_bank_spec;
use crate::state::user_consistent_with;
use crate::state::AssetPosition;
use crate::state::Bank;
use crate::state::User;

verus! {

/// What a withdrawal of `amount` at time `now` does: the accrued pool and
/// the user with the burned shares debited, or the first error on the way —
/// the accrual's own, a zero amount, an amount over the caller's accrued
/// value, an amount over the pool's un-borrowed liquidity, or a burn over
/// the caller's shares. A burn that takes the side's last share also
/// clears the side's residual value, keeping value and shares zero
/// together.
pub open spec fn withdraw_spec(bank: Bank, user: User, amount: u64, now: i64) -> Result<
    (Bank, User),
    ErrorCode,
> {
    match accrue_bank_spec(bank, now) {
        Result::Err(e) => Result::Err(e),
        Result::Ok(ab) => {
            let side = user.side_spec(bank.mint_address);
            let p = user.position_spec(side);
            let user_value = shares_value_spec(
                p.deposited_shares,
                ab.total_deposits,
                ab.total_deposits_shares,
            );
            if amount == 0 {
                Result::Err(ErrorCode::ArithmeticError)
            } else if amount > user_value {
                Result::Err(ErrorCode::InsufficientFunds)
            } else if ab.total_borrowed + amount > ab.total_deposits {
                Result::Err(ErrorCode::InsufficientFunds)
            } else {
                let burn = shares_to_burn_spec(
                    amount,
                    ab.total_deposits,
                    ab.total_deposits_shares,
                );
                if burn > p.deposited_shares {
                    Result::Err(ErrorCode::InsufficientShares)
                } else {
                    Result::Ok(
                        (
                            Bank {
                                total_deposits: if burn == ab.total_deposits_shares {
                                    0u64
                                } else {
                                    (ab.total_deposits - amount) as u64
                                },
                                total_deposits_shares: (ab.total_deposits_shares - burn) as u64,
                                ..ab
                            },
                            User {
                                last_updated: now,
                                ..user.with_position_spec(
                                    side,
                                    AssetPosition {
                                        deposited_shares: (p.deposited_shares - burn) as u64,
                                        ..p
                                    },
                                )
                            },
                        ),
                    )
                }
            }
        },
    }
}

/// Withdraws `amount` from the pool for the user; returns the records to
/// commit. The amount itself is what the caller must transfer from the pool
/// to the user.
pub fn withdraw(bank: &Bank, user: &User, amount: u64, now: i64) -> (r: Result<
    (Bank, User),
    ErrorCode,
>)
    requires
        bank.wf(),
        user_consistent_with(*user, *bank),
    ensures
        r == withdraw_spec(*bank, *user, amount, now),
        r is Ok ==> (r->Ok_0).0.wf(),
        r is Ok ==> user_consistent_with((r->Ok_0).1, (r->Ok_0).0),
{
    let ab = match accrue_bank(bank, now) {
        Ok(b) => b,
        Err(e) => {
            return Err(e);
        },
    };
    proof {
        // The accrued pool is still well-formed: value and shares stay
        // zero together on both sides.
        crate::state::lemma_accrue_bank_wf(*bank, now);
    }
    let side = user.side_of(bank.mint_address);
    let p = user.position(side);
    if amount == 0 {
        return Err(ErrorCode::ArithmeticError);
    }
    let user_value = shares_value(p.deposited_shares, ab.total_deposits, ab.total_deposits_shares);
    if amount > user_value {
        return Err(ErrorCode::InsufficientFunds);
    }
    if (ab.total_borrowed as u128) + (amount as u128) > ab.total_deposits as u128 {
        return Err(ErrorCode::InsufficientFunds);
    }
    let burn = shares_to_burn(amount, ab.total_deposits, ab.total_deposits_shares);
    if burn > p.deposited_shares {
        return Err(ErrorCode::InsufficientShares);
    }
    proof {
        // Draining the side completely burns all its shares: the ceiling of
        // a whole is the whole.
        if amount == ab.total_deposits {
            assert(mul_div_ceil(amount as int, ab.total_deposits_shares as int, amount as int)
                == ab.total_deposits_shares) by (nonlinear_arith)
                requires
                    amount > 0;
        }
    }
    let new_bank = Bank {
        total_deposits: if burn == ab.total_deposits_shares {
            0
        } else {
            ab.total_deposits - amount
        },
        total_deposits_shares: ab.total_deposits_shares - burn,
        ..ab
    };
    let mut new_user = *user;
    new_user.set_position(
        side,
        AssetPosition { deposited_shares: p.deposited_shares - burn, ..p },
    );
    new_user.last_updated = now;
    Ok((new_bank, new_user))
}

} // verus!
