//! The error taxonomy of the lending engine.
//!
//! Every operation reports failure synchronously through one of these kinds;
//! nothing is retried internally, and no ledger record is mutated when an
//! error is raised.

use vstd::prelude::*;

verus! {

/// Why a lending operation was refused.
#[derive(Clone, Copy, Debug, PartialEq, Eq, Structural)]
pub enum ErrorCode {
    /// A withdrawal asked for more than the caller's accrued deposit value,
    /// or more than the pool's un-borrowed liquidity.
    InsufficientFunds,
    /// A borrow would push the caller's debt over the limit derived from the
    /// value of their collateral.
    OverBorrowableAmount,
    /// A repayment offered more than the caller's accrued debt.
    OverRepayAmount,
    /// A liquidation was attempted on a position whose health factor is not
    /// below one.
    DoesNotFallBelowHealthFactor,
    /// A liquidation would seize more collateral than the position holds.
    InsufficientCollateral,
    /// Burning shares for a value would take more shares than the caller
    /// holds.
    InsufficientShares,
    /// The supplied oracle price is for the wrong feed, malformed, or older
    /// than the accepted maximum age.
    StaleOrMissingPrice,
    /// The custody collaborator refused to move the assets; the engine
    /// itself never raises this, and a host that meets it commits nothing.
    TransferFailure,
    /// An amount, a timestamp difference or an intermediate product fell
    /// outside the representable range: a zero amount, a checkpoint in the
    /// future, or an arithmetic overflow.
    ArithmeticError,
}

impl ErrorCode {
    /// A short human-readable description of the error.
    pub fn message(&self) -> &'static str {
        match self {
            ErrorCode::InsufficientFunds => "Insufficient Funds",
            ErrorCode::OverBorrowableAmount => "Not eligible to borrow this much amount",
            ErrorCode::OverRepayAmount => "Over repay amount",
            ErrorCode::DoesNotFallBelowHealthFactor => {
                "The account does not fall below the health factor, so can't be liquidated"
            },
            ErrorCode::InsufficientCollateral => "Insufficient collateral to seize",
            ErrorCode::InsufficientShares => "Insufficient shares",
            ErrorCode::StaleOrMissingPrice => "Stale or missing oracle price",
            ErrorCode::TransferFailure => "Asset transfer failed",
            ErrorCode::ArithmeticError => "Arithmetic overflow or invalid amount",
        }
    }
}

} // verus!
