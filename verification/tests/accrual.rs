//! Accrual calculator behaviour on concrete values.

use lendity_fi::accrual::calculate_total_deposit_with_interest_accumulated;
use lendity_fi::constants::RATE_SCALE;
use lendity_fi::error::ErrorCode;

#[test]
fn accrual_zero_elapsed_returns_principal() {
    let r = calculate_total_deposit_with_interest_accumulated(12_345, RATE_SCALE / 2, 0);
    assert_eq!(r, Ok(12_345));
}

#[test]
fn accrual_zero_rate_returns_principal() {
    let r = calculate_total_deposit_with_interest_accumulated(98_765, 0, 1_000_000);
    assert_eq!(r, Ok(98_765));
}

#[test]
fn accrual_grows_with_positive_rate_and_elapsed() {
    // One second at a rate of 100 scale-billionths on a principal of one
    // billion units gains exactly 100 units.
    let r = calculate_total_deposit_with_interest_accumulated(1_000_000_000, 100, 1);
    assert_eq!(r, Ok(1_000_000_100));
}

#[test]
fn accrual_compounds_per_second() {
    // Two seconds at 50% per second: the factor is 1.5^2 = 2.25.
    let r = calculate_total_deposit_with_interest_accumulated(1_000, RATE_SCALE / 2, 2);
    assert_eq!(r, Ok(2_250));
}

#[test]
fn accrual_truncates_interest_below_one_unit() {
    // A single unit at one scale-billionth per second gains less than a
    // unit and is returned unchanged.
    let r = calculate_total_deposit_with_interest_accumulated(1, 1, 1);
    assert_eq!(r, Ok(1));
}

#[test]
fn accrual_rejects_negative_elapsed() {
    let r = calculate_total_deposit_with_interest_accumulated(1_000, 0, -1);
    assert_eq!(r, Err(ErrorCode::ArithmeticError));
}

#[test]
fn accrual_reports_overflow() {
    // The largest principal at 100% per second doubles out of range fast.
    let r = calculate_total_deposit_with_interest_accumulated(u64::MAX, RATE_SCALE, 64);
    assert_eq!(r, Err(ErrorCode::ArithmeticError));
}

#[test]
fn accrual_is_interval_independent_for_exact_factors() {
    // Accruing once over two seconds equals accruing twice over one second
    // when each step's factor is exact.
    let once = calculate_total_deposit_with_interest_accumulated(1_000, RATE_SCALE / 2, 2)
        .unwrap();
    let first = calculate_total_deposit_with_interest_accumulated(1_000, RATE_SCALE / 2, 1)
        .unwrap();
    let twice = calculate_total_deposit_with_interest_accumulated(first, RATE_SCALE / 2, 1)
        .unwrap();
    assert_eq!(once, twice);
}
