//! Feed-id parsing and price validation on concrete values.

use lendity_fi::constants::{MAX_AGE_PYTH, SOL_USD_FEED_ID_HEX, USDC_USD_FEED_ID_HEX};
use lendity_fi::error::ErrorCode;
use lendity_fi::price::{get_feed_id_from_hex, get_price_no_older_than, PriceData};

#[test]
fn sol_feed_id_decodes_to_its_bytes() {
    let id = get_feed_id_from_hex(SOL_USD_FEED_ID_HEX).unwrap();
    assert_eq!(id.len(), 32);
    assert_eq!(id[0], 0xef);
    assert_eq!(id[1], 0x0d);
    assert_eq!(id[31], 0x6d);
}

#[test]
fn usdc_feed_id_decodes_to_its_bytes() {
    let id = get_feed_id_from_hex(USDC_USD_FEED_ID_HEX).unwrap();
    assert_eq!(id.len(), 32);
    assert_eq!(id[0], 0xea);
    assert_eq!(id[31], 0x4a);
}

#[test]
fn feed_id_accepts_bare_and_prefixed_hex_equally() {
    let bare = "ef0d8b6fda2ceba41da15d4095d1da392a0d2f8ed0c6c7bc0f4cfac8c280b56d";
    let a = get_feed_id_from_hex(SOL_USD_FEED_ID_HEX).unwrap();
    let b = get_feed_id_from_hex(bare).unwrap();
    assert_eq!(a, b);
}

#[test]
fn feed_id_mixes_digit_cases() {
    let id = get_feed_id_from_hex(
        "00FF0a0B0c0D0e0f101112131415161718191a1b1c1d1e1f2021222324252627",
    )
    .unwrap();
    assert_eq!(id[0], 0x00);
    assert_eq!(id[1], 0xff);
    assert_eq!(id[2], 0x0a);
}

#[test]
fn feed_id_rejects_wrong_length() {
    assert_eq!(get_feed_id_from_hex("abcd"), Err(ErrorCode::StaleOrMissingPrice));
    assert_eq!(get_feed_id_from_hex(""), Err(ErrorCode::StaleOrMissingPrice));
}

#[test]
fn feed_id_rejects_non_hex_characters() {
    let bad = "zz0d8b6fda2ceba41da15d4095d1da392a0d2f8ed0c6c7bc0f4cfac8c280b56d";
    assert_eq!(get_feed_id_from_hex(bad), Err(ErrorCode::StaleOrMissingPrice));
}

#[test]
fn parser_agrees_with_oracle_sdk_on_known_feeds() {
    let sol_ours = get_feed_id_from_hex(SOL_USD_FEED_ID_HEX).unwrap();
    let sol_theirs =
        pyth_solana_receiver_sdk::price_update::get_feed_id_from_hex(SOL_USD_FEED_ID_HEX).unwrap();
    assert_eq!(sol_ours, sol_theirs.to_vec());
    let usdc_ours = get_feed_id_from_hex(USDC_USD_FEED_ID_HEX).unwrap();
    let usdc_theirs =
        pyth_solana_receiver_sdk::price_update::get_feed_id_from_hex(USDC_USD_FEED_ID_HEX)
            .unwrap();
    assert_eq!(usdc_ours, usdc_theirs.to_vec());
}

fn sol_price(price: i64, publish_time: i64) -> PriceData {
    PriceData {
        feed_id: get_feed_id_from_hex(SOL_USD_FEED_ID_HEX).unwrap(),
        price,
        publish_time,
    }
}

#[test]
fn fresh_price_for_expected_feed_is_accepted() {
    let expected = get_feed_id_from_hex(SOL_USD_FEED_ID_HEX).unwrap();
    let data = sol_price(150_000_000, 1_000);
    let r = get_price_no_older_than(&data, &expected, 1_000 + MAX_AGE_PYTH as i64, MAX_AGE_PYTH);
    assert_eq!(r, Ok(150_000_000));
}

#[test]
fn stale_price_is_rejected() {
    let expected = get_feed_id_from_hex(SOL_USD_FEED_ID_HEX).unwrap();
    let data = sol_price(150_000_000, 1_000);
    let now = 1_000 + MAX_AGE_PYTH as i64 + 1;
    let r = get_price_no_older_than(&data, &expected, now, MAX_AGE_PYTH);
    assert_eq!(r, Err(ErrorCode::StaleOrMissingPrice));
}

#[test]
fn price_for_wrong_feed_is_rejected() {
    let expected = get_feed_id_from_hex(USDC_USD_FEED_ID_HEX).unwrap();
    let data = sol_price(150_000_000, 1_000);
    let r = get_price_no_older_than(&data, &expected, 1_000, MAX_AGE_PYTH);
    assert_eq!(r, Err(ErrorCode::StaleOrMissingPrice));
}

#[test]
fn non_positive_price_is_rejected() {
    let expected = get_feed_id_from_hex(SOL_USD_FEED_ID_HEX).unwrap();
    let zero = sol_price(0, 1_000);
    let negative = sol_price(-5, 1_000);
    assert_eq!(
        get_price_no_older_than(&zero, &expected, 1_000, MAX_AGE_PYTH),
        Err(ErrorCode::StaleOrMissingPrice)
    );
    assert_eq!(
        get_price_no_older_than(&negative, &expected, 1_000, MAX_AGE_PYTH),
        Err(ErrorCode::StaleOrMissingPrice)
    );
}
