//! Repay: value returns to a pool's borrow side and burns borrow shares.
//!
//! The operation accrues the pool, checks the offered amount against the
//! caller's accrued debt, burns the corresponding borrow shares rounding
//! up, and debits pool and user. The caller transfers the amount (user to
//! pool) and commits the records with that transfer.

use vstd::prelude::*;
use crate::error::ErrorCode;
use crate::math::mul_div_ceil;
use crate::shares::shares_to_burn;
use crate::shares::shares_to_burn_spec;
use crate::shares::shares_value;
use crate::shares::shares_value_spec;
use crate::state::accrue_bank;
use crate::state::accrue_bank_spec;
use crate::state::user_consistent_with;
use crate::state::AssetPosition;
use crate::state::Bank;
use crate::state::User;

verus! {

/// What a repayment of `amount` at time `now` does: the accrued pool and
/// the user with the burned borrow shares debited, or the first error on
/// the way — the accrual's own, a zero amount, an amount over the caller's
/// accrued debt, or a burn over the caller's shares. A burn that takes the
/// side's last share also clears the side's residual value, keeping value
/// and shares zero together.
pub open spec fn repay_spec(bank: Bank, user: User, amount: u64, now: i64) -> Result<
    (Bank, User),
    ErrorCode,
> {
    match accrue_bank_spec(bank, now) {
        Result::Err(e) => Result::Err(e),
        Result::Ok(ab) => {
            let side = user.side_spec(bank.mint_address);
            let p = user.position_spec(side);
            let user_debt = shares_value_spec(
                p.borrowed_shares,
                ab.total_borrowed,
                ab.total_borrowed_shares,
            );
            if amount == 0 {
                Result::Err(ErrorCode::ArithmeticError)
            } else if amount > user_debt {
                Result::Err(ErrorCode::OverRepayAmount)
            } else {
                let burn = shares_to_burn_spec(
                    amount,
                    ab.total_borrowed,
                    ab.total_borrowed_shares,
                );
                if burn > p.borrowed_shares {
                    Result::Err(ErrorCode::InsufficientShares)
                } else {
                    Result::Ok(
                        (
                            Bank {
                                total_borrowed: if burn == ab.total_borrowed_shares {
                                    0u64
                                } else {
                                    (ab.total_borrowed - amount) as u64
                                },
                                total_borrowed_shares: (ab.total_borrowed_shares - burn) as u64,
                                ..ab
                            },
                            User {
                                last_updated_borrowed: now,
                                ..user.with_position_spec(
                                    side,
                                    AssetPosition {
                                        borrowed_shares: (p.borrowed_shares - burn) as u64,
                                        ..p
                                    },
                                )
                            },
                        ),
                    )
                }
            }
        },
    }
}

/// Repays `amount` of the user's debt to the pool; returns the records to
/// commit. The amount itself is what the caller must transfer from the
/// user to the pool.
pub fn repay(bank: &Bank, user: &User, amount: u64, now: i64) -> (r: Result<
    (Bank, User),
    ErrorCode,
>)
    requires
        bank.wf(),
        user_consistent_with(*user, *bank),
    ensures
        r == repay_spec(*bank, *user, amount, now),
        r is Ok ==> (r->Ok_0).0.wf(),
        r is Ok ==> user_consistent_with((r->Ok_0).1, (r->Ok_0).0),
{
    let ab = match accrue_bank(bank, now) {
        Ok(b) => b,
        Err(e) => {
            return Err(e);
        },
    };
    proof {
        // The accrued pool is still well-formed: value and shares stay
        // zero together on both sides.
        crate::state::lemma_accrue_bank_wf(*bank, now);
    }
    let side = user.side_of(bank.mint_address);
    let p = user.position(side);
    if amount == 0 {
        return Err(ErrorCode::ArithmeticError);
    }
    let user_debt = shares_value(p.borrowed_shares, ab.total_borrowed, ab.total_borrowed_shares);
    if amount > user_debt {
        return Err(ErrorCode::OverRepayAmount);
    }
    let burn = shares_to_burn(amount, ab.total_borrowed, ab.total_borrowed_shares);
    if burn > p.borrowed_shares {
        return Err(ErrorCode::InsufficientShares);
    }
    proof {
        // Repaying the whole borrow side burns all its shares: the ceiling
        // of a whole is the whole.
        if amount == ab.total_borrowed {
            assert(mul_div_ceil(amount as int, ab.total_borrowed_shares as int, amount as int)
                == ab.total_borrowed_shares) by (nonlinear_arith)
                requires
                    amount > 0;
        }
    }
    let new_bank = Bank {
        total_borrowed: if burn == ab.total_borrowed_shares {
            0
        } else {
            ab.total_borrowed - amount
        },
        total_borrowed_shares: ab.total_borrowed_shares - burn,
        ..ab
    };
    let mut new_user = *user;
    new_user.set_position(
        side,
        AssetPosition { borrowed_shares: p.borrowed_shares - burn, ..p },
    );
    new_user.last_updated_borrowed = now;
    Ok((new_bank, new_user))
}

} // verus!
