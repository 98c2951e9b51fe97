//! The ledger records: per-asset pool state and per-user position state.
//!
//! A [`Bank`] aggregates one asset's deposits and borrows, each side carried
//! as a total value and a total of shares outstanding, together with the
//! pool's risk parameters. A [`User`] holds one position over exactly two
//! assets — the configured stable asset and the collateral asset — as share
//! balances with accrual checkpoints. Records are passed into each operation
//! explicitly, so the engine is storage-agnostic.

use vstd::prelude::*;
use crate::accrual::accrued_value;
use crate::accrual::calculate_total_deposit_with_interest_accumulated;
use crate::constants::FRACTION_SCALE;
use crate::error::ErrorCode;

verus! {

/// Which of a user's two asset slots an operation touches: the stable
/// (quote) asset the user configured, or the collateral asset.
#[derive(Clone, Copy, Debug, PartialEq, Eq, Structural)]
pub enum AssetSide {
    Collateral,
    Stable,
}

/// A user's share balances in one asset.
#[derive(Clone, Copy, Debug, PartialEq, Eq, Structural, Default)]
pub struct AssetPosition {
    /// Deposit shares held in the asset's pool.
    pub deposited_shares: u64,
    /// Borrow shares owed to the asset's pool.
    pub borrowed_shares: u64,
}

/// The aggregate per-asset pool ledger.
///
/// Fractions (`liquidation_threshold`, `max_ltv`, `liquidation_bonus`,
/// `liquidation_close_factor`) are scaled by [`FRACTION_SCALE`]; the
/// per-second `interest_rate` is scaled by
/// [`crate::constants::RATE_SCALE`].
#[derive(Clone, Copy, Debug, PartialEq, Eq, Structural)]
pub struct Bank {
    /// Identity permitted to create and configure the pool.
    pub authority: u64,
    /// Identifier of the pool's underlying asset.
    pub mint_address: u64,
    /// Aggregate deposited principal, accrued up to `last_updated`.
    pub total_deposits: u64,
    /// Deposit shares outstanding.
    pub total_deposits_shares: u64,
    /// Aggregate borrowed principal, accrued up to `last_updated`.
    pub total_borrowed: u64,
    /// Borrow shares outstanding.
    pub total_borrowed_shares: u64,
    /// Fraction of collateral value a debt may reach before liquidation.
    pub liquidation_threshold: u64,
    /// Extra fraction of the repaid value a liquidator receives.
    pub liquidation_bonus: u64,
    /// Largest fraction of a debt one liquidation may repay.
    pub liquidation_close_factor: u64,
    /// Largest fraction of collateral value a borrow may draw.
    pub max_ltv: u64,
    /// Timestamp of the last accrual applied to this pool.
    pub last_updated: i64,
    /// Continuous per-second interest rate.
    pub interest_rate: u64,
}

/// The per-user position ledger over the two supported assets.
#[derive(Clone, Copy, Debug, PartialEq, Eq, Structural)]
pub struct User {
    /// Identity that owns the position.
    pub owner: u64,
    /// Identifier of the asset treated as this user's stable unit; every
    /// other asset falls on the collateral side.
    pub usdc_address: u64,
    /// Share balances in the stable asset.
    pub stable: AssetPosition,
    /// Share balances in the collateral asset.
    pub collateral: AssetPosition,
    /// Timestamp of the last accrual applied to this user's deposits.
    pub last_updated: i64,
    /// Timestamp of the last accrual applied to this user's borrows.
    pub last_updated_borrowed: i64,
}

impl Bank {
    /// Well-formedness: on each side, the value is zero exactly when the
    /// shares outstanding are zero (share burns round up, so an operation
    /// that takes a side's last share also clears the side's residual
    /// value), and every risk fraction lies in `[0, 1]`.
    pub open spec fn wf(self) -> bool {
        &&& self.total_deposits == 0 <==> self.total_deposits_shares == 0
        &&& self.total_borrowed == 0 <==> self.total_borrowed_shares == 0
        &&& self.liquidation_threshold <= FRACTION_SCALE
        &&& self.max_ltv <= FRACTION_SCALE
        &&& self.liquidation_bonus <= FRACTION_SCALE
        &&& self.liquidation_close_factor <= FRACTION_SCALE
    }
}

impl User {
    /// Which of the user's two slots the given asset falls on.
    pub open spec fn side_spec(self, asset_id: u64) -> AssetSide {
        if asset_id == self.usdc_address {
            AssetSide::Stable
        } else {
            AssetSide::Collateral
        }
    }

    /// The user's share balances on one side.
    pub open spec fn position_spec(self, side: AssetSide) -> AssetPosition {
        match side {
            AssetSide::Stable => self.stable,
            AssetSide::Collateral => self.collateral,
        }
    }

    /// The user with one side's balances replaced.
    pub open spec fn with_position_spec(self, side: AssetSide, p: AssetPosition) -> User {
        match side {
            AssetSide::Stable => User { stable: p, ..self },
            AssetSide::Collateral => User { collateral: p, ..self },
        }
    }

    /// Which of the user's two slots the given asset falls on.
    pub fn side_of(&self, asset_id: u64) -> (s: AssetSide)
        ensures
            s == self.side_spec(asset_id),
    {
        if asset_id == self.usdc_address {
            AssetSide::Stable
        } else {
            AssetSide::Collateral
        }
    }

    /// The user's share balances on one side.
    pub fn position(&self, side: AssetSide) -> (p: AssetPosition)
        ensures
            p == self.position_spec(side),
    {
        match side {
            AssetSide::Stable => self.stable,
            AssetSide::Collateral => self.collateral,
        }
    }

    /// Replaces one side's balances.
    pub fn set_position(&mut self, side: AssetSide, p: AssetPosition)
        ensures
            *final(self) == old(self).with_position_spec(side, p),
    {
        match side {
            AssetSide::Stable => {
                self.stable = p;
            },
            AssetSide::Collateral => {
                self.collateral = p;
            },
        }
    }
}

/// A user's record is consistent with a pool's aggregates: on the side the
/// pool's asset falls on, the user holds no more shares than the pool has
/// outstanding. The host ledger maintains this across all users; each
/// operation relies on it for the pool's asset.
pub open spec fn user_consistent_with(user: User, bank: Bank) -> bool {
    let p = user.position_spec(user.side_spec(bank.mint_address));
    &&& p.deposited_shares <= bank.total_deposits_shares
    &&& p.borrowed_shares <= bank.total_borrowed_shares
}

/// Creates a pool for one asset with its risk parameters.
///
/// Creation is an administrative action; the caller supplies fractions
/// already scaled by [`FRACTION_SCALE`], each at most one.
pub fn initialize_bank(
    authority: u64,
    mint_address: u64,
    liquidation_threshold: u64,
    max_ltv: u64,
    liquidation_bonus: u64,
    liquidation_close_factor: u64,
    interest_rate: u64,
    now: i64,
) -> (bank: Bank)
    requires
        liquidation_threshold <= FRACTION_SCALE,
        max_ltv <= FRACTION_SCALE,
        liquidation_bonus <= FRACTION_SCALE,
        liquidation_close_factor <= FRACTION_SCALE,
    ensures
        bank == (Bank {
            authority,
            mint_address,
            total_deposits: 0u64,
            total_deposits_shares: 0u64,
            total_borrowed: 0u64,
            total_borrowed_shares: 0u64,
            liquidation_threshold,
            liquidation_bonus,
            liquidation_close_factor,
            max_ltv,
            last_updated: now,
            interest_rate,
        }),
        bank.wf(),
{
    Bank {
        authority,
        mint_address,
        total_deposits: 0,
        total_deposits_shares: 0,
        total_borrowed: 0,
        total_borrowed_shares: 0,
        liquidation_threshold,
        liquidation_bonus,
        liquidation_close_factor,
        max_ltv,
        last_updated: now,
        interest_rate,
    }
}

/// Creates a user's position record, empty on both sides, with the given
/// asset as the user's stable unit.
pub fn initialize_user(owner: u64, usdc_address: u64, now: i64) -> (user: User)
    ensures
        user == (User {
            owner,
            usdc_address,
            stable: AssetPosition { deposited_shares: 0u64, borrowed_shares: 0u64 },
            collateral: AssetPosition { deposited_shares: 0u64, borrowed_shares: 0u64 },
            last_updated: now,
            last_updated_borrowed: now,
        }),
{
    User {
        owner,
        usdc_address,
        stable: AssetPosition { deposited_shares: 0, borrowed_shares: 0 },
        collateral: AssetPosition { deposited_shares: 0, borrowed_shares: 0 },
        last_updated: now,
        last_updated_borrowed: now,
    }
}

/// The bank with both sides' values brought up to `now` by the accrual
/// calculator, or the error the accrual reports: a pool checkpoint in the
/// future or a fixed-point overflow.
pub open spec fn accrue_bank_spec(bank: Bank, now: i64) -> Result<Bank, ErrorCode> {
    let elapsed = now - bank.last_updated;
    if elapsed < 0 || elapsed > i64::MAX {
        Result::Err(ErrorCode::ArithmeticError)
    } else {
        match (
            accrued_value(bank.total_deposits as int, bank.interest_rate as int, elapsed),
            accrued_value(bank.total_borrowed as int, bank.interest_rate as int, elapsed),
        ) {
            (Option::Some(d), Option::Some(b)) => Result::Ok(
                Bank {
                    total_deposits: d as u64,
                    total_borrowed: b as u64,
                    last_updated: now,
                    ..bank
                },
            ),
            _ => Result::Err(ErrorCode::ArithmeticError),
        }
    }
}

/// Accrual preserves well-formedness: it never shrinks a side's value and
/// grows nothing out of nothing, so value and shares stay zero together,
/// and it leaves the risk parameters untouched.
pub proof fn lemma_accrue_bank_wf(bank: Bank, now: i64)
    requires
        bank.wf(),
        accrue_bank_spec(bank, now) is Ok,
    ensures
        accrue_bank_spec(bank, now)->Ok_0.wf(),
        accrue_bank_spec(bank, now)->Ok_0.total_deposits >= bank.total_deposits,
        accrue_bank_spec(bank, now)->Ok_0.total_borrowed >= bank.total_borrowed,
{
    let elapsed = now - bank.last_updated;
    if bank.total_deposits > 0 {
        crate::accrual::lemma_accrued_ge_principal(
            bank.total_deposits,
            bank.interest_rate,
            elapsed,
        );
    } else {
        crate::accrual::lemma_accrued_zero_principal(bank.interest_rate, elapsed);
    }
    if bank.total_borrowed > 0 {
        crate::accrual::lemma_accrued_ge_principal(
            bank.total_borrowed,
            bank.interest_rate,
            elapsed,
        );
    } else {
        crate::accrual::lemma_accrued_zero_principal(bank.interest_rate, elapsed);
    }
}

/// Applies the accrual calculator to both sides of a pool.
pub fn accrue_bank(bank: &Bank, now: i64) -> (r: Result<Bank, ErrorCode>)
    ensures
        r == accrue_bank_spec(*bank, now),
{
    let elapsed_wide: i128 = now as i128 - bank.last_updated as i128;
    if elapsed_wide < 0 || elapsed_wide > i64::MAX as i128 {
        return Err(ErrorCode::ArithmeticError);
    }
    let elapsed: i64 = elapsed_wide as i64;
    let deposits = match calculate_total_deposit_with_interest_accumulated(
        bank.total_deposits,
        bank.interest_rate,
        elapsed,
    ) {
        Ok(d) => d,
        Err(e) => {
            return Err(e);
        },
    };
    let borrowed = match calculate_total_deposit_with_interest_accumulated(
        bank.total_borrowed,
        bank.interest_rate,
        elapsed,
    ) {
        Ok(b) => b,
        Err(e) => {
            return Err(e);
        },
    };
    Ok(Bank { total_deposits: deposits, total_borrowed: borrowed, last_updated: now, ..*bank })
}

} // verus!
