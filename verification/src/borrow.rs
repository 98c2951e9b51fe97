//! Borrow: value leaves a pool's borrow side against the user's collateral
//! in the other pool, minting borrow shares.
//!
//! The operation accrues both pools, values the user's collateral and
//! existing debt in the common unit at the supplied prices, and admits the
//! request only if the hypothetical post-borrow debt stays within the
//! borrowable amount the collateral supports. Only the borrowed pool is
//! written; the collateral pool is read for valuation alone. The caller
//! transfers the amount (pool to user) and commits the records with that
//! transfer.

use vstd::prelude::*;
use crate::error::ErrorCode;
use crate::health::borrowable_amount;
use crate::health::borrowable_amount_spec;
use crate::health::common_value;
use crate::health::common_value_spec;
use crate::shares::mint_shares;
use crate::shares::mint_shares_spec;
use crate::shares::shares_value;
use crate::shares::shares_value_spec;
use crate::state::accrue_bank;
use crate::state::accrue_bank_spec;
use crate::state::user_consistent_with;
use crate::state::AssetPosition;
use crate::state::Bank;
use crate::state::User;

verus! {

/// The accrued value, in its own asset's units, of the user's deposit
/// shares in the collateral pool at time `now`.
pub open spec fn collateral_asset_value_spec(collateral_bank: Bank, user: User, now: i64) -> int {
    let acb = accrue_bank_spec(collateral_bank, now)->Ok_0;
    let p = user.position_spec(user.side_spec(collateral_bank.mint_address));
    shares_value_spec(p.deposited_shares, acb.total_deposits, acb.total_deposits_shares)
}

/// The accrued value, in its own asset's units, of the user's borrow
/// shares in the borrowed pool at time `now`.
pub open spec fn debt_asset_value_spec(borrowed_bank: Bank, user: User, now: i64) -> int {
    let abb = accrue_bank_spec(borrowed_bank, now)->Ok_0;
    let p = user.position_spec(user.side_spec(borrowed_bank.mint_address));
    shares_value_spec(p.borrowed_shares, abb.total_borrowed, abb.total_borrowed_shares)
}

/// The user's collateral value in the common unit: the accrued value of
/// their deposit shares in the collateral pool, at the collateral price.
pub open spec fn collateral_value_spec(
    collateral_bank: Bank,
    user: User,
    collateral_price: u64,
    now: i64,
) -> int {
    common_value_spec(
        collateral_asset_value_spec(collateral_bank, user, now) as u64,
        collateral_price,
    )
}

/// The user's debt value in the common unit: the accrued value of their
/// borrow shares in the borrowed pool, at the borrowed asset's price.
pub open spec fn debt_value_spec(
    borrowed_bank: Bank,
    user: User,
    borrowed_price: u64,
    now: i64,
) -> int {
    common_value_spec(debt_asset_value_spec(borrowed_bank, user, now) as u64, borrowed_price)
}

/// What a borrow of `amount` at time `now` does: the accrued borrowed pool
/// and the user with the minted borrow shares credited, or the first error
/// on the way — an accrual's own, a zero amount, a valuation leaving the
/// ledger's range, a request over the borrowable amount, or a total leaving
/// the ledger's range.
pub open spec fn borrow_spec(
    borrowed_bank: Bank,
    collateral_bank: Bank,
    user: User,
    collateral_price: u64,
    borrowed_price: u64,
    amount: u64,
    now: i64,
) -> Result<(Bank, User), ErrorCode> {
    match (accrue_bank_spec(borrowed_bank, now), accrue_bank_spec(collateral_bank, now)) {
        (Result::Ok(abb), Result::Ok(acb)) => {
            let cs = user.side_spec(collateral_bank.mint_address);
            let bs = user.side_spec(borrowed_bank.mint_address);
            let cp = user.position_spec(cs);
            let bp = user.position_spec(bs);
            let cav = shares_value_spec(
                cp.deposited_shares,
                acb.total_deposits,
                acb.total_deposits_shares,
            );
            let cv = common_value_spec(cav as u64, collateral_price);
            let bav = shares_value_spec(
                bp.borrowed_shares,
                abb.total_borrowed,
                abb.total_borrowed_shares,
            );
            let bv = common_value_spec(bav as u64, borrowed_price);
            let av = common_value_spec(amount, borrowed_price);
            if amount == 0 {
                Result::Err(ErrorCode::ArithmeticError)
            } else if cv > u64::MAX || bv > u64::MAX || av > u64::MAX {
                Result::Err(ErrorCode::ArithmeticError)
            } else if bv + av > borrowable_amount_spec(
                cv as u64,
                collateral_bank.liquidation_threshold,
            ) {
                Result::Err(ErrorCode::OverBorrowableAmount)
            } else {
                match mint_shares_spec(amount, abb.total_borrowed, abb.total_borrowed_shares) {
                    Result::Err(e) => Result::Err(e),
                    Result::Ok(minted) => {
                        if abb.total_borrowed + amount > u64::MAX || abb.total_borrowed_shares
                            + minted > u64::MAX || bp.borrowed_shares + minted > u64::MAX {
                            Result::Err(ErrorCode::ArithmeticError)
                        } else {
                            Result::Ok(
                                (
                                    Bank {
                                        total_borrowed: (abb.total_borrowed + amount) as u64,
                                        total_borrowed_shares: (abb.total_borrowed_shares
                                            + minted) as u64,
                                        ..abb
                                    },
                                    User {
                                        last_updated_borrowed: now,
                                        ..user.with_position_spec(
                                            bs,
                                            AssetPosition {
                                                borrowed_shares: (bp.borrowed_shares
                                                    + minted) as u64,
                                                ..bp
                                            },
                                        )
                                    },
                                ),
                            )
                        }
                    },
                }
            }
        },
        (Result::Err(e), _) => Result::Err(e),
        (_, Result::Err(e)) => Result::Err(e),
    }
}

/// Borrows `amount` from the borrowed pool against the user's collateral in
/// the collateral pool; returns the records to commit. The amount itself is
/// what the caller must transfer from the pool to the user.
pub fn borrow(
    borrowed_bank: &Bank,
    collateral_bank: &Bank,
    user: &User,
    collateral_price: u64,
    borrowed_price: u64,
    amount: u64,
    now: i64,
) -> (r: Result<(Bank, User), ErrorCode>)
    requires
        borrowed_bank.wf(),
        collateral_bank.wf(),
        user_consistent_with(*user, *borrowed_bank),
        user_consistent_with(*user, *collateral_bank),
        user.side_spec(borrowed_bank.mint_address) != user.side_spec(
            collateral_bank.mint_address,
        ),
    ensures
        r == borrow_spec(
            *borrowed_bank,
            *collateral_bank,
            *user,
            collateral_price,
            borrowed_price,
            amount,
            now,
        ),
        r is Ok ==> (r->Ok_0).0.wf(),
        r is Ok ==> user_consistent_with((r->Ok_0).1, (r->Ok_0).0),
{
    let abb = match accrue_bank(borrowed_bank, now) {
        Ok(b) => b,
        Err(e) => {
            return Err(e);
        },
    };
    let acb = match accrue_bank(collateral_bank, now) {
        Ok(b) => b,
        Err(e) => {
            return Err(e);
        },
    };
    proof {
        // The accrued pool is still well-formed: value and shares stay
        // zero together on both sides.
        crate::state::lemma_accrue_bank_wf(*borrowed_bank, now);
    }
    let cs = user.side_of(collateral_bank.mint_address);
    let bs = user.side_of(borrowed_bank.mint_address);
    let cp = user.position(cs);
    let bp = user.position(bs);
    if amount == 0 {
        return Err(ErrorCode::ArithmeticError);
    }
    let cav = shares_value(cp.deposited_shares, acb.total_deposits, acb.total_deposits_shares);
    let cv = match common_value(cav, collateral_price) {
        Ok(v) => v,
        Err(e) => {
            return Err(e);
        },
    };
    let bav = shares_value(bp.borrowed_shares, abb.total_borrowed, abb.total_borrowed_shares);
    let bv = match common_value(bav, borrowed_price) {
        Ok(v) => v,
        Err(e) => {
            return Err(e);
        },
    };
    let av = match common_value(amount, borrowed_price) {
        Ok(v) => v,
        Err(e) => {
            return Err(e);
        },
    };
    let limit = borrowable_amount(cv, collateral_bank.liquidation_threshold);
    if (bv as u128) + (av as u128) > limit as u128 {
        return Err(ErrorCode::OverBorrowableAmount);
    }
    let minted = match mint_shares(amount, abb.total_borrowed, abb.total_borrowed_shares) {
        Ok(s) => s,
        Err(e) => {
            return Err(e);
        },
    };
    let total_borrowed = match abb.total_borrowed.checked_add(amount) {
        Option::Some(v) => v,
        Option::None => {
            return Err(ErrorCode::ArithmeticError);
        },
    };
    let total_borrowed_shares = match abb.total_borrowed_shares.checked_add(minted) {
        Option::Some(v) => v,
        Option::None => {
            return Err(ErrorCode::ArithmeticError);
        },
    };
    let user_shares = match bp.borrowed_shares.checked_add(minted) {
        Option::Some(v) => v,
        Option::None => {
            return Err(ErrorCode::ArithmeticError);
        },
    };
    let new_bank = Bank { total_borrowed, total_borrowed_shares, ..abb };
    let mut new_user = *user;
    new_user.set_position(bs, AssetPosition { borrowed_shares: user_shares, ..bp });
    new_user.last_updated_borrowed = now;
    Ok((new_bank, new_user))
}

/// Borrow-limit soundness: a borrow that succeeds keeps the hypothetical
/// post-borrow debt within the borrowable amount, and a borrow refused as
/// over the borrowable amount was indeed over it. Both hold of every input.
pub proof fn lemma_borrow_limit_sound(
    borrowed_bank: Bank,
    collateral_bank: Bank,
    user: User,
    collateral_price: u64,
    borrowed_price: u64,
    amount: u64,
    now: i64,
)
    ensures
        borrow_spec(
            borrowed_bank,
            collateral_bank,
            user,
            collateral_price,
            borrowed_price,
            amount,
            now,
        ) is Ok ==> debt_value_spec(borrowed_bank, user, borrowed_price, now)
            + common_value_spec(amount, borrowed_price) <= borrowable_amount_spec(
            collateral_value_spec(collateral_bank, user, collateral_price, now) as u64,
            collateral_bank.liquidation_threshold,
        ),
        borrow_spec(
            borrowed_bank,
            collateral_bank,
            user,
            collateral_price,
            borrowed_price,
            amount,
            now,
        ) == Result::<(Bank, User), ErrorCode>::Err(ErrorCode::OverBorrowableAmount)
            ==> debt_value_spec(borrowed_bank, user, borrowed_price, now) + common_value_spec(
            amount,
            borrowed_price,
        ) > borrowable_amount_spec(
            collateral_value_spec(collateral_bank, user, collateral_price, now) as u64,
            collateral_bank.liquidation_threshold,
        ),
{
}

/// Borrow-limit completeness: when both accruals succeed, the amount is
/// positive, every valuation and total stays in the ledger's range, and the
/// mint is accepted, the borrow succeeds exactly when the hypothetical
/// post-borrow debt stays within the borrowable amount.
pub proof fn lemma_borrow_limit_complete(
    borrowed_bank: Bank,
    collateral_bank: Bank,
    user: User,
    collateral_price: u64,
    borrowed_price: u64,
    amount: u64,
    now: i64,
)
    requires
        accrue_bank_spec(borrowed_bank, now) is Ok,
        accrue_bank_spec(collateral_bank, now) is Ok,
        amount > 0,
        collateral_value_spec(collateral_bank, user, collateral_price, now) <= u64::MAX,
        debt_value_spec(borrowed_bank, user, borrowed_price, now) <= u64::MAX,
        common_value_spec(amount, borrowed_price) <= u64::MAX,
        mint_shares_spec(
            amount,
            accrue_bank_spec(borrowed_bank, now)->Ok_0.total_borrowed,
            accrue_bank_spec(borrowed_bank, now)->Ok_0.total_borrowed_shares,
        ) is Ok,
        accrue_bank_spec(borrowed_bank, now)->Ok_0.total_borrowed + amount <= u64::MAX,
        accrue_bank_spec(borrowed_bank, now)->Ok_0.total_borrowed_shares + mint_shares_spec(
            amount,
            accrue_bank_spec(borrowed_bank, now)->Ok_0.total_borrowed,
            accrue_bank_spec(borrowed_bank, now)->Ok_0.total_borrowed_shares,
        )->Ok_0 <= u64::MAX,
        user.position_spec(user.side_spec(borrowed_bank.mint_address)).borrowed_shares
            + mint_shares_spec(
            amount,
            accrue_bank_spec(borrowed_bank, now)->Ok_0.total_borrowed,
            accrue_bank_spec(borrowed_bank, now)->Ok_0.total_borrowed_shares,
        )->Ok_0 <= u64::MAX,
    ensures
        borrow_spec(
            borrowed_bank,
            collateral_bank,
            user,
            collateral_price,
            borrowed_price,
            amount,
            now,
        ) is Ok <==> debt_value_spec(borrowed_bank, user, borrowed_price, now)
            + common_value_spec(amount, borrowed_price) <= borrowable_amount_spec(
            collateral_value_spec(collateral_bank, user, collateral_price, now) as u64,
            collateral_bank.liquidation_threshold,
        ),
{
}

} // verus!
