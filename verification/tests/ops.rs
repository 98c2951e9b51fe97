//! Deposit, withdraw, borrow and repay on concrete ledgers.

use lendity_fi::borrow::borrow;
use lendity_fi::constants::PRICE_SCALE;
use lendity_fi::deposit::deposit;
use lendity_fi::error::ErrorCode;
use lendity_fi::repay::repay;
use lendity_fi::state::{initialize_bank, initialize_user, AssetSide, Bank, User};
use lendity_fi::withdraw::withdraw;

const COLLATERAL_MINT: u64 = 1;
const STABLE_MINT: u64 = 2;
const ADMIN: u64 = 7;
const ALICE: u64 = 11;

fn fresh_bank(mint: u64, rate: u64) -> Bank {
    initialize_bank(ADMIN, mint, 8_000, 8_000, 500, 5_000, rate, 0)
}

fn fresh_user() -> User {
    initialize_user(ALICE, STABLE_MINT, 0)
}

#[test]
fn first_deposit_mints_one_to_one() {
    let bank = fresh_bank(COLLATERAL_MINT, 0);
    let user = fresh_user();
    let (bank2, user2) = deposit(&bank, &user, 1_000, 0).unwrap();
    assert_eq!(bank2.total_deposits, 1_000);
    assert_eq!(bank2.total_deposits_shares, 1_000);
    assert_eq!(user2.collateral.deposited_shares, 1_000);
    assert_eq!(user2.stable.deposited_shares, 0);
}

#[test]
fn deposits_without_elapsed_time_stay_at_par() {
    let bank = fresh_bank(COLLATERAL_MINT, 0);
    let user = fresh_user();
    let (bank2, user2) = deposit(&bank, &user, 300, 0).unwrap();
    let (bank3, user3) = deposit(&bank2, &user2, 700, 0).unwrap();
    // Every unit deposited minted exactly one share: the round trip loses
    // nothing while no time passes.
    assert_eq!(bank3.total_deposits, 1_000);
    assert_eq!(bank3.total_deposits_shares, 1_000);
    assert_eq!(user3.collateral.deposited_shares, 1_000);
}

#[test]
fn deposit_of_zero_is_rejected() {
    let bank = fresh_bank(COLLATERAL_MINT, 0);
    let user = fresh_user();
    assert_eq!(deposit(&bank, &user, 0, 0), Err(ErrorCode::ArithmeticError));
}

#[test]
fn later_depositor_pays_accrued_price_per_share() {
    // 50% per second for one second doubles nothing but adds half: pool
    // value 1500 against 1000 shares, so 300 units buy 200 shares.
    let bank = fresh_bank(COLLATERAL_MINT, 500_000_000);
    let user = fresh_user();
    let (bank2, user2) = deposit(&bank, &user, 1_000, 0).unwrap();
    let (bank3, user3) = deposit(&bank2, &user2, 300, 1).unwrap();
    assert_eq!(bank3.total_deposits, 1_800);
    assert_eq!(bank3.total_deposits_shares, 1_200);
    assert_eq!(user3.collateral.deposited_shares, 1_200);
}

#[test]
fn withdraw_returns_deposit_and_burns_shares() {
    let bank = fresh_bank(COLLATERAL_MINT, 0);
    let user = fresh_user();
    let (bank2, user2) = deposit(&bank, &user, 1_000, 0).unwrap();
    let (bank3, user3) = withdraw(&bank2, &user2, 400, 0).unwrap();
    assert_eq!(bank3.total_deposits, 600);
    assert_eq!(bank3.total_deposits_shares, 600);
    assert_eq!(user3.collateral.deposited_shares, 600);
}

#[test]
fn withdraw_over_accrued_value_is_insufficient_funds() {
    let bank = fresh_bank(COLLATERAL_MINT, 0);
    let user = fresh_user();
    let (bank2, user2) = deposit(&bank, &user, 1_000, 0).unwrap();
    assert_eq!(withdraw(&bank2, &user2, 1_001, 0), Err(ErrorCode::InsufficientFunds));
}

#[test]
fn withdraw_over_unborrowed_liquidity_is_insufficient_funds() {
    // The pool holds 1000 but 800 of it is lent out: only 200 may leave,
    // whatever the caller's own balance.
    let mut bank = fresh_bank(COLLATERAL_MINT, 0);
    bank.total_deposits = 1_000;
    bank.total_deposits_shares = 1_000;
    bank.total_borrowed = 800;
    bank.total_borrowed_shares = 800;
    let mut user = fresh_user();
    user.collateral.deposited_shares = 1_000;
    assert_eq!(withdraw(&bank, &user, 300, 0), Err(ErrorCode::InsufficientFunds));
    let (bank2, _user2) = withdraw(&bank, &user, 200, 0).unwrap();
    assert_eq!(bank2.total_deposits, 800);
}

#[test]
fn withdraw_all_clears_shares() {
    let bank = fresh_bank(COLLATERAL_MINT, 0);
    let user = fresh_user();
    let (bank2, user2) = deposit(&bank, &user, 1_000, 0).unwrap();
    let (bank3, user3) = withdraw(&bank2, &user2, 1_000, 0).unwrap();
    assert_eq!(bank3.total_deposits, 0);
    assert_eq!(bank3.total_deposits_shares, 0);
    assert_eq!(user3.collateral.deposited_shares, 0);
}

#[test]
fn withdraw_taking_last_share_clears_residual_value() {
    // Value 10 against 2 shares: withdrawing 6 burns ceil(6*2/10) = 2,
    // the side's last shares, so the residual 4 units of value are
    // cleared with them — value and shares stay zero together.
    let mut bank = fresh_bank(COLLATERAL_MINT, 0);
    bank.total_deposits = 10;
    bank.total_deposits_shares = 2;
    let mut user = fresh_user();
    user.collateral.deposited_shares = 2;
    let (bank2, user2) = withdraw(&bank, &user, 6, 0).unwrap();
    assert_eq!(bank2.total_deposits, 0);
    assert_eq!(bank2.total_deposits_shares, 0);
    assert_eq!(user2.collateral.deposited_shares, 0);
}

#[test]
fn repay_taking_last_share_clears_residual_debt() {
    // Debt 10 against 2 shares: repaying 6 burns ceil(6*2/10) = 2, the
    // side's last shares, so the residual 4 units of debt are cleared
    // with them — no debt remains owed by nobody.
    let mut bank = fresh_bank(STABLE_MINT, 0);
    bank.total_borrowed = 10;
    bank.total_borrowed_shares = 2;
    let mut user = fresh_user();
    user.stable.borrowed_shares = 2;
    let (bank2, user2) = repay(&bank, &user, 6, 0).unwrap();
    assert_eq!(bank2.total_borrowed, 0);
    assert_eq!(bank2.total_borrowed_shares, 0);
    assert_eq!(user2.stable.borrowed_shares, 0);
}

#[test]
fn borrow_within_limit_mints_borrow_shares() {
    let collateral_bank = fresh_bank(COLLATERAL_MINT, 0);
    let stable_bank = fresh_bank(STABLE_MINT, 0);
    let user = fresh_user();
    let (collateral_bank, user) = deposit(&collateral_bank, &user, 1_000, 0).unwrap();
    let (stable_bank2, user2) = borrow(
        &stable_bank,
        &collateral_bank,
        &user,
        PRICE_SCALE,
        PRICE_SCALE,
        500,
        0,
    )
    .unwrap();
    assert_eq!(stable_bank2.total_borrowed, 500);
    assert_eq!(stable_bank2.total_borrowed_shares, 500);
    assert_eq!(user2.stable.borrowed_shares, 500);
    assert_eq!(user2.collateral.borrowed_shares, 0);
}

#[test]
fn borrow_over_limit_is_rejected() {
    let collateral_bank = fresh_bank(COLLATERAL_MINT, 0);
    let stable_bank = fresh_bank(STABLE_MINT, 0);
    let user = fresh_user();
    let (collateral_bank, user) = deposit(&collateral_bank, &user, 1_000, 0).unwrap();
    // The threshold of 0.8 supports a debt of 800 against 1000.
    let r = borrow(
        &stable_bank,
        &collateral_bank,
        &user,
        PRICE_SCALE,
        PRICE_SCALE,
        801,
        0,
    );
    assert_eq!(r, Err(ErrorCode::OverBorrowableAmount));
}

#[test]
fn borrow_to_exact_limit_succeeds() {
    let collateral_bank = fresh_bank(COLLATERAL_MINT, 0);
    let stable_bank = fresh_bank(STABLE_MINT, 0);
    let user = fresh_user();
    let (collateral_bank, user) = deposit(&collateral_bank, &user, 1_000, 0).unwrap();
    let (stable_bank, user) = borrow(
        &stable_bank,
        &collateral_bank,
        &user,
        PRICE_SCALE,
        PRICE_SCALE,
        500,
        0,
    )
    .unwrap();
    // Existing debt counts against the limit: 500 + 300 = 800 is exactly
    // the borrowable amount.
    let (stable_bank2, user2) = borrow(
        &stable_bank,
        &collateral_bank,
        &user,
        PRICE_SCALE,
        PRICE_SCALE,
        300,
        0,
    )
    .unwrap();
    assert_eq!(stable_bank2.total_borrowed, 800);
    assert_eq!(user2.stable.borrowed_shares, 800);
}

#[test]
fn withdraw_after_accrual_pays_interest() {
    // Half the principal per second for one second: 1000 deposited is
    // worth 1500, and withdrawing it all burns all 1000 shares.
    let bank = fresh_bank(COLLATERAL_MINT, 500_000_000);
    let user = fresh_user();
    let (bank2, user2) = deposit(&bank, &user, 1_000, 0).unwrap();
    let (bank3, user3) = withdraw(&bank2, &user2, 1_500, 1).unwrap();
    assert_eq!(bank3.total_deposits, 0);
    assert_eq!(bank3.total_deposits_shares, 0);
    assert_eq!(user3.collateral.deposited_shares, 0);
}

#[test]
fn repay_reduces_debt_and_shares() {
    let collateral_bank = fresh_bank(COLLATERAL_MINT, 0);
    let stable_bank = fresh_bank(STABLE_MINT, 0);
    let user = fresh_user();
    let (collateral_bank, user) = deposit(&collateral_bank, &user, 1_000, 0).unwrap();
    let (stable_bank, user) = borrow(
        &stable_bank,
        &collateral_bank,
        &user,
        PRICE_SCALE,
        PRICE_SCALE,
        500,
        0,
    )
    .unwrap();
    let (stable_bank2, user2) = repay(&stable_bank, &user, 200, 0).unwrap();
    assert_eq!(stable_bank2.total_borrowed, 300);
    assert_eq!(stable_bank2.total_borrowed_shares, 300);
    assert_eq!(user2.stable.borrowed_shares, 300);
}

#[test]
fn repay_over_debt_is_rejected() {
    let collateral_bank = fresh_bank(COLLATERAL_MINT, 0);
    let stable_bank = fresh_bank(STABLE_MINT, 0);
    let user = fresh_user();
    let (collateral_bank, user) = deposit(&collateral_bank, &user, 1_000, 0).unwrap();
    let (stable_bank, user) = borrow(
        &stable_bank,
        &collateral_bank,
        &user,
        PRICE_SCALE,
        PRICE_SCALE,
        500,
        0,
    )
    .unwrap();
    assert_eq!(repay(&stable_bank, &user, 501, 0), Err(ErrorCode::OverRepayAmount));
}

#[test]
fn side_classification_follows_stable_asset() {
    let user = fresh_user();
    assert_eq!(user.side_of(STABLE_MINT), AssetSide::Stable);
    assert_eq!(user.side_of(COLLATERAL_MINT), AssetSide::Collateral);
    assert_eq!(user.side_of(99), AssetSide::Collateral);
}

#[test]
fn error_messages_match_their_kinds() {
    assert_eq!(ErrorCode::InsufficientFunds.message(), "Insufficient Funds");
    assert_eq!(
        ErrorCode::OverBorrowableAmount.message(),
        "Not eligible to borrow this much amount"
    );
    assert_eq!(ErrorCode::OverRepayAmount.message(), "Over repay amount");
}
