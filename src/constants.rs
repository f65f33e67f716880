use vstd::prelude::*;

verus! {

pub const MINT_DECIMAL: u8 = 6;

/// Smallest native units in one whole unit of the collateral asset.
pub const NATIVE_UNIT: u64 = 1_000_000_000;

/// Factor that scales the oracle's raw price up to the engine's USD scale.
pub const PRICE_FEED_DECIMAL_ADJUSTMENT: u64 = 10;

/// Oldest accepted price, in seconds.
pub const MAX_AGE: u64 = 100;

/// The SOL/USD feed that every health factor is read from.
pub const SOL_USD_FEED_ID: &'static str = "0xef0d8b6fda2ceba41da15d4095d1da392a0d2f8ed0c6c7bc0f4cfac8c280b56d";

/// Default percentage of collateral value that counts toward solvency.
pub const LIQUIDATION_THRESHOLD: u64 = 50;

/// Default percentage premium paid to liquidators.
pub const LIQUIDATION_BONUS: u64 = 10;

/// Default minimum health factor.
pub const MIN_HEALTH_FACTOR: u64 = 1;

/// Health factor of a position without debt.
pub const MAX_HEALTH_FACTOR: u64 = 0xffff_ffff_ffff_ffff;

} // verus!
