use pyth_solana_receiver_sdk::price_update::get_feed_id_from_hex;

use inrc::constants::{MAX_AGE, MAX_HEALTH_FACTOR, NATIVE_UNIT, SOL_USD_FEED_ID};
use inrc::contexts::same_identity;
use inrc::math::{add_liquidation_bonus, calculate_health_factor, get_lamports_from_usd, to_usd};
use inrc::oracle::{read_price, validate_quote, PriceFeed, PriceQuote, Verification};
use inrc::{
    deposit_collateral, initialize_config, liquidate, update_config, withdraw_collateral,
    Collateral, Config, DepositCollateral, ErrorCode, InitializeConfig, Liquidate, UpdateConfig,
    WithdrawCollateral,
};

const OWNER: [u8; 32] = [7; 32];
const OTHER: [u8; 32] = [9; 32];
const NOW: i64 = 1_700_000_000;

fn config(threshold: u64, bonus: u64, min_hf: u64) -> Config {
    Config {
        authority: OWNER,
        mint: [1; 32],
        liquidation_threshold: threshold,
        liquidation_bonus: bonus,
        min_health_factor: min_hf,
        bump: 254,
        mint_pda_bump: 253,
    }
}

fn position(lamports: u64, minted: u64) -> Collateral {
    Collateral {
        depositor: OWNER,
        sol_treasury: [2; 32],
        mint_ata: [3; 32],
        lamport_balance: lamports,
        amount_minted: minted,
        bump: 250,
        sol_treasury_bump: 251,
        is_initialized: true,
    }
}

fn empty_position() -> Collateral {
    Collateral {
        depositor: [0; 32],
        sol_treasury: [0; 32],
        mint_ata: [0; 32],
        lamport_balance: 0,
        amount_minted: 0,
        bump: 0,
        sol_treasury_bump: 0,
        is_initialized: false,
    }
}

/// A fully verified SOL/USD update whose raw price is `raw`; the engine
/// scales it by ten.
fn feed(raw: i64, published: i64) -> PriceFeed {
    PriceFeed {
        feed_id: get_feed_id_from_hex(SOL_USD_FEED_ID).unwrap(),
        price: raw,
        publish_time: published,
        verification: Verification::Full,
    }
}

fn deposit_ctx(cfg: Config, treasury: Collateral, custody: u64, update: PriceFeed) -> DepositCollateral {
    DepositCollateral {
        depositor: OWNER,
        config: cfg,
        treasury,
        sol_treasury: [2; 32],
        sol_treasury_lamports: custody,
        mint_ata: [3; 32],
        treasury_bump: 250,
        sol_treasury_bump: 251,
        price_feed: update,
        now: NOW,
    }
}

fn withdraw_ctx(cfg: Config, treasury: Collateral, custody: u64, update: PriceFeed) -> WithdrawCollateral {
    WithdrawCollateral {
        depositor: OWNER,
        config: cfg,
        treasury,
        sol_treasury_lamports: custody,
        price_feed: update,
        now: NOW,
    }
}

fn liquidate_ctx(cfg: Config, treasury: Collateral, custody: u64, update: PriceFeed) -> Liquidate {
    Liquidate {
        liquidator: OTHER,
        config: cfg,
        treasury,
        sol_treasury_lamports: custody,
        price_feed: update,
        now: NOW,
    }
}

#[test]
fn usd_value_of_ten_units() {
    assert_eq!(to_usd(10 * NATIVE_UNIT, 100), 1000);
    assert_eq!(to_usd(1, 999_999_999), 0);
    assert_eq!(to_usd(u64::MAX, u64::MAX), (u64::MAX as u128) * (u64::MAX as u128) / 1_000_000_000);
}

#[test]
fn health_factor_floor_formula() {
    // floor(floor(3 * 10^9 * 7 / 10^9) * 80 / 100 / 4) = floor(16 / 4) = 4
    assert_eq!(calculate_health_factor(3 * NATIVE_UNIT, 4, 7, 80), Ok(4));
    // floor(floor(1234567891 * 333 / 10^9) * 55 / 100 / 3) = floor(411 * 55 / 100 / 3) = 75
    assert_eq!(calculate_health_factor(1_234_567_891, 3, 333, 55), Ok(75));
    // the largest inputs at full threshold stay exact in 128 bits
    let value = (u64::MAX as u128) * (u64::MAX as u128) / 1_000_000_000;
    let expected = value * 100 / 100 / (u64::MAX as u128);
    assert_eq!(calculate_health_factor(u64::MAX, u64::MAX, u64::MAX, 100), Ok(expected as u64));
}

#[test]
fn health_factor_without_debt_is_max() {
    assert_eq!(calculate_health_factor(0, 0, 100, 80), Ok(MAX_HEALTH_FACTOR));
    assert_eq!(calculate_health_factor(u64::MAX, 0, u64::MAX, u64::MAX), Ok(u64::MAX));
}

#[test]
fn health_factor_too_large_is_arithmetic_fault() {
    assert_eq!(calculate_health_factor(u64::MAX, 1, u64::MAX, 100), Err(ErrorCode::ArithmeticFault));
    assert_eq!(calculate_health_factor(u64::MAX, 1, u64::MAX, u64::MAX), Err(ErrorCode::ArithmeticFault));
}

#[test]
fn lamports_and_bonus() {
    // 500 debt units at a price of 100 per unit are 5 units
    assert_eq!(get_lamports_from_usd(500, 100), Ok(5 * NATIVE_UNIT));
    assert_eq!(get_lamports_from_usd(1, 3), Ok(333_333_333));
    assert_eq!(get_lamports_from_usd(u64::MAX, 1), Err(ErrorCode::ArithmeticFault));
    assert_eq!(add_liquidation_bonus(1000, 10), Ok(1100));
    assert_eq!(add_liquidation_bonus(999, 10), Ok(1098));
    assert_eq!(add_liquidation_bonus(u64::MAX, 1), Err(ErrorCode::ArithmeticFault));
}

#[test]
fn quote_validation() {
    assert_eq!(validate_quote(PriceQuote { price: 10, publish_time: 0 }), Ok(100));
    assert_eq!(validate_quote(PriceQuote { price: 0, publish_time: 0 }), Err(ErrorCode::StaleOrInvalidPrice));
    assert_eq!(validate_quote(PriceQuote { price: -5, publish_time: 0 }), Err(ErrorCode::StaleOrInvalidPrice));
    assert_eq!(validate_quote(PriceQuote { price: i64::MAX, publish_time: 0 }), Err(ErrorCode::ArithmeticFault));
}

#[test]
fn read_price_from_feed() {
    assert_eq!(read_price(&feed(10, NOW), NOW), Ok(100));
    assert_eq!(read_price(&feed(10, NOW - MAX_AGE as i64), NOW), Ok(100));
    assert_eq!(read_price(&feed(10, NOW - MAX_AGE as i64 - 1), NOW), Err(ErrorCode::StaleOrInvalidPrice));
    assert_eq!(read_price(&feed(-1, NOW), NOW), Err(ErrorCode::StaleOrInvalidPrice));
}

#[test]
fn read_price_rejects_other_feed_and_partial_verification() {
    let mut other = feed(10, NOW);
    other.feed_id = [5; 32];
    assert_eq!(read_price(&other, NOW), Err(ErrorCode::StaleOrInvalidPrice));
    let mut partial = feed(10, NOW);
    partial.verification = Verification::Partial { num_signatures: 3 };
    assert_eq!(read_price(&partial, NOW), Err(ErrorCode::StaleOrInvalidPrice));
}

#[test]
fn deposit_accepted_at_health_factor_one() {
    // price 100 per unit, threshold 80, minimum 1: 10 units back 700 debt
    let mut ctx = deposit_ctx(config(80, 10, 1), empty_position(), 0, feed(10, NOW));
    assert_eq!(deposit_collateral(&mut ctx, 10 * NATIVE_UNIT, 700), Ok(()));
    assert_eq!(ctx.treasury.lamport_balance, 10 * NATIVE_UNIT);
    assert_eq!(ctx.treasury.amount_minted, 700);
    assert!(ctx.treasury.is_initialized);
    assert_eq!(ctx.treasury.depositor, OWNER);
    assert_eq!(ctx.treasury.sol_treasury, [2; 32]);
}

#[test]
fn deposit_rejected_below_minimum() {
    // 800 / 900 floors to 0
    let mut ctx = deposit_ctx(config(80, 10, 1), empty_position(), 0, feed(10, NOW));
    let before = ctx.treasury;
    assert_eq!(ctx.deposit_collateral(10 * NATIVE_UNIT, 900), Err(ErrorCode::BelowMinHealthFactor));
    assert_eq!(ctx.treasury, before);
}

#[test]
fn deposit_with_stale_price_changes_nothing() {
    let stale = feed(10, NOW - 10 * MAX_AGE as i64);
    let mut ctx = deposit_ctx(config(80, 10, 1), empty_position(), 0, stale);
    let before = ctx.treasury;
    assert_eq!(ctx.deposit_collateral(10 * NATIVE_UNIT, 1), Err(ErrorCode::StaleOrInvalidPrice));
    assert_eq!(ctx.treasury, before);
}

#[test]
fn deposit_into_anothers_position_is_unauthorized() {
    let mut theirs = position(NATIVE_UNIT, 0);
    theirs.depositor = OTHER;
    let mut ctx = deposit_ctx(config(80, 10, 1), theirs, NATIVE_UNIT, feed(10, NOW));
    assert_eq!(ctx.deposit_collateral(NATIVE_UNIT, 1), Err(ErrorCode::Unauthorized));
    assert_eq!(ctx.treasury, theirs);
}

#[test]
fn deposit_overflow_is_arithmetic_fault() {
    let mut ctx = deposit_ctx(config(80, 10, 1), position(u64::MAX, 0), u64::MAX, feed(10, NOW));
    assert_eq!(ctx.deposit_collateral(1, 0), Err(ErrorCode::ArithmeticFault));
    assert_eq!(ctx.treasury, position(u64::MAX, 0));
}

#[test]
fn deposit_recomputes_collateral_from_custody() {
    // the stored balance is stale; custody holds 4 units before 1 more arrives
    let mut ctx = deposit_ctx(config(80, 10, 1), position(NATIVE_UNIT, 0), 4 * NATIVE_UNIT, feed(10, NOW));
    assert_eq!(ctx.deposit_collateral(NATIVE_UNIT, 100), Ok(()));
    assert_eq!(ctx.treasury.lamport_balance, 5 * NATIVE_UNIT);
    assert_eq!(ctx.treasury.amount_minted, 100);
}

#[test]
fn withdraw_accepted_and_rejected() {
    // 10 units, 400 debt; withdrawing 5 units and burning 100 leaves 400 / 300 = 1
    let mut ctx = withdraw_ctx(config(80, 10, 1), position(10 * NATIVE_UNIT, 400), 10 * NATIVE_UNIT, feed(10, NOW));
    assert_eq!(withdraw_collateral(&mut ctx, 5 * NATIVE_UNIT, 100), Ok(()));
    assert_eq!(ctx.treasury, position(5 * NATIVE_UNIT, 300));
    // withdrawing 2 more units leaves 240 / 300 = 0
    ctx.sol_treasury_lamports = 5 * NATIVE_UNIT;
    assert_eq!(ctx.redeem_collateral(2 * NATIVE_UNIT, 0), Err(ErrorCode::BelowMinHealthFactor));
    assert_eq!(ctx.treasury, position(5 * NATIVE_UNIT, 300));
}

#[test]
fn withdraw_more_than_held_is_arithmetic_fault() {
    let mut ctx = withdraw_ctx(config(80, 10, 1), position(NATIVE_UNIT, 10), NATIVE_UNIT, feed(10, NOW));
    assert_eq!(ctx.redeem_collateral(2 * NATIVE_UNIT, 0), Err(ErrorCode::ArithmeticFault));
    assert_eq!(ctx.redeem_collateral(0, 11), Err(ErrorCode::ArithmeticFault));
    assert_eq!(ctx.treasury, position(NATIVE_UNIT, 10));
}

#[test]
fn withdraw_by_stranger_is_unauthorized() {
    let mut ctx = withdraw_ctx(config(80, 10, 1), position(NATIVE_UNIT, 0), NATIVE_UNIT, feed(10, NOW));
    ctx.depositor = OTHER;
    assert_eq!(ctx.redeem_collateral(NATIVE_UNIT, 0), Err(ErrorCode::Unauthorized));
}

#[test]
fn withdraw_with_stale_price_changes_nothing() {
    let stale = feed(10, NOW - 10 * MAX_AGE as i64);
    let mut ctx = withdraw_ctx(config(80, 10, 1), position(NATIVE_UNIT, 0), NATIVE_UNIT, stale);
    assert_eq!(ctx.redeem_collateral(NATIVE_UNIT, 0), Err(ErrorCode::StaleOrInvalidPrice));
    assert_eq!(ctx.treasury, position(NATIVE_UNIT, 0));
}

#[test]
fn deposit_then_withdraw_restores_balances() {
    let start = position(3 * NATIVE_UNIT, 100);
    let mut dep = deposit_ctx(config(80, 10, 1), start, 3 * NATIVE_UNIT, feed(10, NOW));
    assert_eq!(dep.deposit_collateral(2 * NATIVE_UNIT, 150), Ok(()));
    let mut wd = withdraw_ctx(config(80, 10, 1), dep.treasury, 5 * NATIVE_UNIT, feed(10, NOW));
    assert_eq!(wd.redeem_collateral(2 * NATIVE_UNIT, 150), Ok(()));
    assert_eq!(wd.treasury, start);
}

#[test]
fn liquidate_healthy_position_is_refused() {
    // 10 units at 100, threshold 50: 500 / 100 = 5
    let mut ctx = liquidate_ctx(config(50, 10, 1), position(10 * NATIVE_UNIT, 100), 10 * NATIVE_UNIT, feed(10, NOW));
    assert_eq!(liquidate(&mut ctx, 50), Err(ErrorCode::AboveMinHealthFactor));
    assert_eq!(ctx.treasury, position(10 * NATIVE_UNIT, 100));
}

#[test]
fn liquidate_unhealthy_position_pays_bonus() {
    // 10 units at 100, threshold 50: 500 / 600 = 0 < 1
    let mut ctx = liquidate_ctx(config(50, 10, 1), position(10 * NATIVE_UNIT, 600), 10 * NATIVE_UNIT, feed(10, NOW));
    // 200 debt units are 2 units, plus 10 percent
    assert_eq!(ctx.liquidate(200), Ok(2_200_000_000));
    assert_eq!(ctx.treasury, position(10 * NATIVE_UNIT - 2_200_000_000, 400));
}

#[test]
fn liquidate_beyond_custody_or_debt_is_arithmetic_fault() {
    let mut ctx = liquidate_ctx(config(50, 10, 1), position(10 * NATIVE_UNIT, 600), 10 * NATIVE_UNIT, feed(10, NOW));
    assert_eq!(ctx.liquidate(1000), Err(ErrorCode::ArithmeticFault));
    // 1 unit at 100, threshold 50: 50 / 60 = 0; 61 debt units would cost 0.671 units
    let mut small = liquidate_ctx(config(50, 10, 1), position(NATIVE_UNIT, 60), NATIVE_UNIT, feed(10, NOW));
    assert_eq!(small.liquidate(61), Err(ErrorCode::ArithmeticFault));
    assert_eq!(small.treasury, position(NATIVE_UNIT, 60));
}

#[test]
fn liquidate_reads_collateral_from_custody() {
    // the record says 10 units, custody holds 1: 50 / 100 = 0 < 1, so liquidation proceeds
    let mut ctx = liquidate_ctx(config(50, 10, 1), position(10 * NATIVE_UNIT, 100), NATIVE_UNIT, feed(10, NOW));
    assert_eq!(ctx.liquidate(50), Ok(550_000_000));
    assert_eq!(ctx.treasury, position(NATIVE_UNIT - 550_000_000, 50));
}

#[test]
fn liquidate_with_stale_price_changes_nothing() {
    let stale = feed(10, NOW - 10 * MAX_AGE as i64);
    let mut ctx = liquidate_ctx(config(50, 10, 1), position(10 * NATIVE_UNIT, 600), 10 * NATIVE_UNIT, stale);
    assert_eq!(ctx.liquidate(200), Err(ErrorCode::StaleOrInvalidPrice));
    assert_eq!(ctx.treasury, position(10 * NATIVE_UNIT, 600));
}

#[test]
fn config_created_once_by_deployer() {
    let mut ctx = InitializeConfig {
        signer: OWNER,
        deployer: OWNER,
        mint: [1; 32],
        config_bump: 254,
        mint_bump: 253,
        config: None,
    };
    assert_eq!(initialize_config(&mut ctx), Ok(()));
    let created = ctx.config.unwrap();
    assert_eq!(created.authority, OWNER);
    assert_eq!(created.liquidation_threshold, 50);
    assert_eq!(created.liquidation_bonus, 10);
    assert_eq!(created.min_health_factor, 1);
    assert_eq!(ctx.init_config(80, 5, 2), Err(ErrorCode::Unauthorized));
    assert_eq!(ctx.config, Some(created));
}

#[test]
fn config_by_stranger_is_unauthorized() {
    let mut ctx = InitializeConfig {
        signer: OTHER,
        deployer: OWNER,
        mint: [1; 32],
        config_bump: 254,
        mint_bump: 253,
        config: None,
    };
    assert_eq!(ctx.init_config(80, 5, 2), Err(ErrorCode::Unauthorized));
    assert_eq!(ctx.config, None);
}

#[test]
fn update_config_by_authority_only() {
    let mut ctx = UpdateConfig { signer: OWNER, config: config(80, 10, 1) };
    assert_eq!(update_config(&mut ctx, 3), Ok(()));
    assert_eq!(ctx.config, config(80, 10, 3));
    ctx.signer = OTHER;
    assert_eq!(ctx.update_config(7), Err(ErrorCode::Unauthorized));
    assert_eq!(ctx.config, config(80, 10, 3));
}

#[test]
fn identities_compare_bytewise() {
    assert!(same_identity(&OWNER, &OWNER));
    assert!(!same_identity(&OWNER, &OTHER));
    let mut last = OWNER;
    last[31] = 0;
    assert!(!same_identity(&OWNER, &last));
}
