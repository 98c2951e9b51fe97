//! Fixed-point scales and oracle configuration shared across the engine.

use vstd::prelude::*;

verus! {

/// Scale of the fixed-point fractions used for the risk parameters
/// (liquidation threshold, maximum loan-to-value, liquidation bonus,
/// liquidation close factor): a fraction `f` in `[0, 1]` is stored as the
/// integer `f * FRACTION_SCALE`, so `8_000` stands for `0.8`.
pub const FRACTION_SCALE: u64 = 10_000;

/// Scale of the per-second interest rate and of the accrual growth factor:
/// a rate `r` is stored as the integer `r * RATE_SCALE`, and a growth factor
/// `g >= 1` as `g * RATE_SCALE`.
pub const RATE_SCALE: u64 = 1_000_000_000;

/// Scale of asset prices in the common (quote) unit: a price `p` is stored
/// as the integer `p * PRICE_SCALE`, so `100_000_000` stands for `1.0`.
pub const PRICE_SCALE: u64 = 100_000_000;

/// Oldest age, in seconds, at which an oracle price is still accepted.
pub const MAX_AGE_PYTH: u64 = 100;

/// Hex identifier of the SOL/USD oracle price feed.
pub const SOL_USD_FEED_ID_HEX: &'static str = "0xef0d8b6fda2ceba41da15d4095d1da392a0d2f8ed0c6c7bc0f4cfac8c280b56d";

/// Hex identifier of the USDC/USD oracle price feed.
pub const USDC_USD_FEED_ID_HEX: &'static str = "0xeaa020c61cc479712813461ce153894a96a6c00b21ed0cfc2798d1f9a9e9c94a";

} // verus!
