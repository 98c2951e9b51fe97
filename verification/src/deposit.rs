//! Deposit: value enters a pool's deposit side and mints deposit shares.
//!
//! The operation accrues the pool, mints shares for the amount, and credits
//! pool and user. The caller transfers the amount (user to pool) through the
//! custody collaborator and commits the returned records together with that
//! transfer's success; on any error nothing is to be committed.

use vstd::prelude::*;
use crate::error::ErrorCode;
use crate::shares::mint_shares;
use crate::shares::mint_shares_spec;
use crate::state::accrue_bank;
use crate::state::accrue_bank_spec;
use crate::state::user_consistent_with;
use crate::state::AssetPosition;
use crate::state::Bank;
use crate::state::User;

verus! {

/// What a deposit of `amount` at time `now` does: the accrued pool and the
/// user with the minted shares credited, or the first error on the way —
/// the accrual's own, a zero amount, or a total leaving the ledger's range.
pub open spec fn deposit_spec(bank: Bank, user: User, amount: u64, now: i64) -> Result<
    (Bank, User),
    ErrorCode,
> {
    match accrue_bank_spec(bank, now) {
        Result::Err(e) => Result::Err(e),
        Result::Ok(ab) => match mint_shares_spec(
            amount,
            ab.total_deposits,
            ab.total_deposits_shares,
        ) {
            Result::Err(e) => Result::Err(e),
            Result::Ok(minted) => {
                let side = user.side_spec(bank.mint_address);
                let p = user.position_spec(side);
                if ab.total_deposits + amount > u64::MAX {
                    Result::Err(ErrorCode::ArithmeticError)
                } else if ab.total_deposits_shares + minted > u64::MAX {
                    Result::Err(ErrorCode::ArithmeticError)
                } else if p.deposited_shares + minted > u64::MAX {
                    Result::Err(ErrorCode::ArithmeticError)
                } else {
                    Result::Ok(
                        (
                            Bank {
                                total_deposits: (ab.total_deposits + amount) as u64,
                                total_deposits_shares: (ab.total_deposits_shares + minted) as u64,
                                ..ab
                            },
                            User {
                                last_updated: now,
                                ..user.with_position_spec(
                                    side,
                                    AssetPosition {
                                        deposited_shares: (p.deposited_shares + minted) as u64,
                                        ..p
                                    },
                                )
                            },
                        ),
                    )
                }
            },
        },
    }
}

/// Deposits `amount` into the pool for the user; returns the records to
/// commit. The amount itself is what the caller must transfer from the user
/// to the pool.
pub fn deposit(bank: &Bank, user: &User, amount: u64, now: i64) -> (r: Result<
    (Bank, User),
    ErrorCode,
>)
    requires
        bank.wf(),
    ensures
        r == deposit_spec(*bank, *user, amount, now),
        r is Ok ==> (r->Ok_0).0.wf(),
        r is Ok && user_consistent_with(*user, *bank) ==> user_consistent_with(
            (r->Ok_0).1,
            (r->Ok_0).0,
        ),
{
    let ab = match accrue_bank(bank, now) {
        Ok(b) => b,
        Err(e) => {
            return Err(e);
        },
    };
    proof {
        // The accrued pool is still well-formed: value and shares stay
        // zero together on both sides.
        crate::state::lemma_accrue_bank_wf(*bank, now);
    }
    let minted = match mint_shares(amount, ab.total_deposits, ab.total_deposits_shares) {
        Ok(s) => s,
        Err(e) => {
            return Err(e);
        },
    };
    let total_deposits = match ab.total_deposits.checked_add(amount) {
        Option::Some(v) => v,
        Option::None => {
            return Err(ErrorCode::ArithmeticError);
        },
    };
    let total_deposits_shares = match ab.total_deposits_shares.checked_add(minted) {
        Option::Some(v) => v,
        Option::None => {
            return Err(ErrorCode::ArithmeticError);
        },
    };
    let side = user.side_of(bank.mint_address);
    let p = user.position(side);
    let user_shares = match p.deposited_shares.checked_add(minted) {
        Option::Some(v) => v,
        Option::None => {
            return Err(ErrorCode::ArithmeticError);
        },
    };
    let mut new_user = *user;
    new_user.set_position(side, AssetPosition { deposited_shares: user_shares, ..p });
    new_user.last_updated = now;
    let new_bank = Bank { total_deposits, total_deposits_shares, ..ab };
    Ok((new_bank, new_user))
}

/// Bootstrap invariant: the first deposit into an empty pool mints shares
/// one-to-one with the amount, for the pool and for the user.
pub proof fn lemma_deposit_bootstrap(bank: Bank, user: User, amount: u64, now: i64)
    requires
        bank.total_deposits == 0,
        bank.total_deposits_shares == 0,
        deposit_spec(bank, user, amount, now) is Ok,
    ensures
        (deposit_spec(bank, user, amount, now)->Ok_0).0.total_deposits == amount,
        (deposit_spec(bank, user, amount, now)->Ok_0).0.total_deposits_shares == amount,
        (deposit_spec(bank, user, amount, now)->Ok_0).1.position_spec(
            user.side_spec(bank.mint_address),
        ).deposited_shares == user.position_spec(
            user.side_spec(bank.mint_address),
        ).deposited_shares + amount,
{
}

/// Share/value round trip: with no intervening time, a pool at par — value
/// equal to shares, as bootstrap leaves it — mints exactly one share per
/// unit deposited and stays at par. Applied across any sequence of such
/// deposits, the value of the shares minted equals the sum of the amounts
/// deposited, with no truncation loss at all.
pub proof fn lemma_deposit_round_trip(bank: Bank, user: User, amount: u64, now: i64)
    requires
        bank.total_deposits == bank.total_deposits_shares,
        now == bank.last_updated,
        deposit_spec(bank, user, amount, now) is Ok,
    ensures
        (deposit_spec(bank, user, amount, now)->Ok_0).0.total_deposits == bank.total_deposits
            + amount,
        (deposit_spec(bank, user, amount, now)->Ok_0).0.total_deposits_shares
            == bank.total_deposits_shares + amount,
        (deposit_spec(bank, user, amount, now)->Ok_0).0.total_deposits == (deposit_spec(
            bank,
            user,
            amount,
            now,
        )->Ok_0).0.total_deposits_shares,
{
    crate::accrual::lemma_accrual_zero_elapsed(bank.total_deposits, bank.interest_rate);
    crate::accrual::lemma_accrual_zero_elapsed(bank.total_borrowed, bank.interest_rate);
    let ab = accrue_bank_spec(bank, now)->Ok_0;
    if amount > 0 {
        crate::shares::lemma_mint_at_par(amount, bank.total_deposits);
    }
}

} // verus!
