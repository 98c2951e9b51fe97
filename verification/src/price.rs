//! Oracle price handling: feed identifiers and price validation.
//!
//! The engine never fetches a price itself. The host hands it the data of a
//! posted price update — feed identifier, price scaled by
//! [`crate::constants::PRICE_SCALE`], publish time — and the engine checks
//! it against the expected feed and a maximum age before any valuation uses
//! it. Feed identifiers are written as 64 hex digits, optionally prefixed
//! `0x`, and decode to 32 bytes.

use vstd::prelude::*;
use crate::error::ErrorCode;
use vstd::string::StringSliceAdditionalSpecFns;

verus! {

/// One posted oracle price, as the host hands it to the engine.
#[derive(Debug)]
pub struct PriceData {
    /// The 32-byte identifier of the feed the price belongs to.
    pub feed_id: Vec<u8>,
    /// The price in the common unit, scaled by
    /// [`crate::constants::PRICE_SCALE`]; the oracle may report it
    /// non-positive, which the validation rejects.
    pub price: i64,
    /// The oracle's own timestamp of the price.
    pub publish_time: i64,
}

/// Whether a byte is an ASCII hex digit.
pub open spec fn is_hex_digit(b: u8) -> bool {
    (48 <= b <= 57) || (65 <= b <= 70) || (97 <= b <= 102)
}

/// The value of an ASCII hex digit.
pub open spec fn hex_digit_value(b: u8) -> int {
    if 48 <= b <= 57 {
        b - 48
    } else if 65 <= b <= 70 {
        b - 55
    } else {
        b - 87
    }
}

/// The hex digits of a feed-id string: the whole of it, or what follows a
/// `0x` prefix.
pub open spec fn feed_id_hex_payload(s: Seq<u8>) -> Seq<u8> {
    if s.len() == 66 {
        s.skip(2)
    } else {
        s
    }
}

/// Whether a byte string is a well-formed feed identifier: 64 hex digits,
/// bare or `0x`-prefixed.
pub open spec fn feed_id_hex_valid(s: Seq<u8>) -> bool {
    &&& s.len() == 64 || (s.len() == 66 && s[0] == 48 && (s[1] == 120 || s[1] == 88))
    &&& forall|i: int|
        0 <= i < 64 ==> is_hex_digit(#[trigger] feed_id_hex_payload(s)[i])
}

/// The 32 bytes a feed identifier's hex digits decode to.
pub open spec fn feed_id_decoded(s: Seq<u8>) -> Seq<u8> {
    Seq::new(
        32,
        |j: int|
            (hex_digit_value(feed_id_hex_payload(s)[2 * j]) * 16 + hex_digit_value(
                feed_id_hex_payload(s)[2 * j + 1],
            )) as u8,
    )
}

/// Decodes one ASCII hex digit.
fn hex_digit(b: u8) -> (r: Option<u8>)
    ensures
        r is Some <==> is_hex_digit(b),
        r is Some ==> r->0 == hex_digit_value(b),
{
    if 48 <= b && b <= 57 {
        Some(b - 48)
    } else if 65 <= b && b <= 70 {
        Some(b - 55)
    } else if 97 <= b && b <= 102 {
        Some(b - 87)
    } else {
        None
    }
}

/// Parses a feed identifier from its hex form: 64 hex digits, bare or
/// `0x`-prefixed, into its 32 bytes. Fails exactly on any other shape,
/// reporting the feed as missing.
pub fn get_feed_id_from_hex(input: &str) -> (r: Result<Vec<u8>, ErrorCode>)
    ensures
        r is Ok <==> feed_id_hex_valid(input.spec_bytes()),
        r is Ok ==> r->Ok_0@ == feed_id_decoded(input.spec_bytes()),
        r is Err ==> r->Err_0 == ErrorCode::StaleOrMissingPrice,
{
    let bytes: &[u8] = input.as_bytes();
    let ghost s: Seq<u8> = input.spec_bytes();
    let offset: usize = if bytes.len() == 64 {
        0
    } else if bytes.len() == 66 && bytes[0] == 48 && (bytes[1] == 120 || bytes[1] == 88) {
        2
    } else {
        return Err(ErrorCode::StaleOrMissingPrice);
    };
    let ghost payload: Seq<u8> = feed_id_hex_payload(s);
    assert(payload =~= s.skip(offset as int));
    let mut out: Vec<u8> = Vec::new();
    let mut j: usize = 0;
    while j < 32
        invariant
            0 <= j <= 32,
            out@.len() == j,
            s == input.spec_bytes(),
            bytes@ == s,
            payload == feed_id_hex_payload(s),
            payload =~= s.skip(offset as int),
            offset == 0 || offset == 2,
            bytes@.len() == 64 + offset,
            forall|k: int| 0 <= k < 2 * j ==> is_hex_digit(#[trigger] payload[k]),
            forall|k: int|
                0 <= k < j ==> out@[k] == (hex_digit_value(payload[2 * k]) * 16 + hex_digit_value(
                    payload[2 * k + 1],
                )) as u8,
        decreases 32 - j,
    {
        proof {
            assert(payload[2 * j as int] == s[2 * j as int + offset]);
            assert(payload[2 * j as int + 1] == s[2 * j as int + 1 + offset]);
        }
        let hi = match hex_digit(bytes[offset + 2 * j]) {
            Option::Some(v) => v,
            Option::None => {
                proof {
                    // One non-hex digit refutes the whole feed id.
                    assert(!is_hex_digit(feed_id_hex_payload(s)[2 * j as int]));
                }
                return Err(ErrorCode::StaleOrMissingPrice);
            },
        };
        let lo = match hex_digit(bytes[offset + 2 * j + 1]) {
            Option::Some(v) => v,
            Option::None => {
                proof {
                    assert(!is_hex_digit(feed_id_hex_payload(s)[2 * j as int + 1]));
                }
                return Err(ErrorCode::StaleOrMissingPrice);
            },
        };
        out.push(hi * 16 + lo);
        j = j + 1;
    }
    assert(out@ =~= feed_id_decoded(s));
    Ok(out)
}

/// Whether a posted price may be used at time `now`: it is for the expected
/// feed, it is positive, and it is no older than `max_age` seconds.
pub open spec fn price_usable(
    data: PriceData,
    expected_feed_id: Seq<u8>,
    now: i64,
    max_age: u64,
) -> bool {
    &&& data.feed_id@ == expected_feed_id
    &&& data.price > 0
    &&& data.publish_time >= now - max_age
}

/// Validates a posted price against the expected feed and a maximum age,
/// and returns it as the scaled common-unit price the valuations take.
/// Fails exactly when the feed does not match, the price is not positive,
/// or the price is older than `max_age` seconds at `now`.
pub fn get_price_no_older_than(
    data: &PriceData,
    expected_feed_id: &Vec<u8>,
    now: i64,
    max_age: u64,
) -> (r: Result<u64, ErrorCode>)
    ensures
        r is Ok <==> price_usable(*data, expected_feed_id@, now, max_age),
        r is Ok ==> r->Ok_0 == data.price,
        r is Err ==> r->Err_0 == ErrorCode::StaleOrMissingPrice,
{
    if data.feed_id.len() != expected_feed_id.len() {
        assert(data.feed_id@ != expected_feed_id@);
        return Err(ErrorCode::StaleOrMissingPrice);
    }
    let n = data.feed_id.len();
    let mut i: usize = 0;
    while i < n
        invariant
            0 <= i <= n,
            n == data.feed_id@.len() == expected_feed_id@.len(),
            forall|k: int| 0 <= k < i ==> data.feed_id@[k] == expected_feed_id@[k],
        decreases n - i,
    {
        if data.feed_id[i] != expected_feed_id[i] {
            assert(data.feed_id@ != expected_feed_id@);
            return Err(ErrorCode::StaleOrMissingPrice);
        }
        i = i + 1;
    }
    assert(data.feed_id@ =~= expected_feed_id@);
    if data.price <= 0 {
        return Err(ErrorCode::StaleOrMissingPrice);
    }
    if (data.publish_time as i128) < (now as i128) - (max_age as i128) {
        return Err(ErrorCode::StaleOrMissingPrice);
    }
    Ok(data.price as u64)
}

} // verus!
