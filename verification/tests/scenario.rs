//! The end-to-end lifecycle: bootstrap, borrow to the limit, price drop,
//! liquidation.

use lendity_fi::borrow::borrow;
use lendity_fi::constants::PRICE_SCALE;
use lendity_fi::deposit::deposit;
use lendity_fi::error::ErrorCode;
use lendity_fi::liquidate::liquidate;
use lendity_fi::state::{initialize_bank, initialize_user};

#[test]
fn lifecycle_deposit_borrow_limit_liquidation() {
    // Both pools: threshold 0.8, max LTV 0.8, bonus 5%, close factor 50%,
    // no interest.
    let asset_a: u64 = 1;
    let asset_b: u64 = 2;
    let bank_a = initialize_bank(7, asset_a, 8_000, 8_000, 500, 5_000, 0, 0);
    let bank_b = initialize_bank(7, asset_b, 8_000, 8_000, 500, 5_000, 0, 0);
    let user = initialize_user(11, asset_b, 0);
    let price_one = PRICE_SCALE;

    // Deposit 1000 units of asset A at price 1.0: 1000 deposit shares.
    let (bank_a, user) = deposit(&bank_a, &user, 1_000, 0).unwrap();
    assert_eq!(bank_a.total_deposits_shares, 1_000);
    assert_eq!(user.collateral.deposited_shares, 1_000);

    // Borrow 500 units of asset B at price 1.0: 500 <= 800, succeeds.
    let (bank_b, user) = borrow(&bank_b, &bank_a, &user, price_one, price_one, 500, 0).unwrap();
    assert_eq!(bank_b.total_borrowed, 500);
    assert_eq!(user.stable.borrowed_shares, 500);

    // Borrow another 400: 900 > 800, fails.
    let r = borrow(&bank_b, &bank_a, &user, price_one, price_one, 400, 0);
    assert_eq!(r, Err(ErrorCode::OverBorrowableAmount));

    // At full price the position is healthy: liquidation is refused.
    let r = liquidate(&bank_a, &bank_b, &user, price_one, price_one, 0);
    assert_eq!(r.unwrap_err(), ErrorCode::DoesNotFallBelowHealthFactor);

    // The price of A halves: collateral value 500, debt 500, health
    // factor 0.8 — liquidatable.
    let half_price = PRICE_SCALE / 2;
    let outcome = liquidate(&bank_a, &bank_b, &user, half_price, price_one, 0).unwrap();

    // The liquidator repays half the debt and seizes it with a 5% bonus:
    // 250 of asset B in, floor(250 * 1.05) = 262 of asset A out.
    assert_eq!(outcome.liquidation_amount, 250);
    assert_eq!(outcome.collateral_seized, 262);
    assert_eq!(outcome.borrowed_bank.total_borrowed, 250);
    assert_eq!(outcome.borrowed_bank.total_borrowed_shares, 250);
    assert_eq!(outcome.collateral_bank.total_deposits, 738);
    assert_eq!(outcome.collateral_bank.total_deposits_shares, 738);
    assert_eq!(outcome.user.stable.borrowed_shares, 250);
    assert_eq!(outcome.user.collateral.deposited_shares, 738);
}

#[test]
fn liquidation_with_empty_collateral_reports_insufficient_collateral() {
    // A debt with no collateral at all is deeply unhealthy, but there is
    // nothing to seize.
    let asset_a: u64 = 1;
    let asset_b: u64 = 2;
    let mut bank_a = initialize_bank(7, asset_a, 8_000, 8_000, 500, 5_000, 0, 0);
    let mut bank_b = initialize_bank(7, asset_b, 8_000, 8_000, 500, 5_000, 0, 0);
    bank_b.total_borrowed = 400;
    bank_b.total_borrowed_shares = 400;
    bank_a.total_deposits = 0;
    bank_a.total_deposits_shares = 0;
    let mut user = initialize_user(11, asset_b, 0);
    user.stable.borrowed_shares = 400;
    let r = liquidate(&bank_a, &bank_b, &user, PRICE_SCALE, PRICE_SCALE, 0);
    assert_eq!(r.unwrap_err(), ErrorCode::InsufficientCollateral);
}
