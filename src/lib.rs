//! Collateralized-debt accounting: positions lock a native asset, mint a
//! pegged debt token against it, and stay above a minimum health factor
//! computed from a live price feed.

use vstd::prelude::*;

pub mod constants;
pub mod contexts;
pub mod error;
pub mod laws;
pub mod ledger;
pub mod math;
pub mod oracle;
pub mod state;

pub use constants::{LIQUIDATION_BONUS, LIQUIDATION_THRESHOLD, MIN_HEALTH_FACTOR};
pub use contexts::{DepositCollateral, InitializeConfig, Liquidate, UpdateConfig, WithdrawCollateral};
pub use error::ErrorCode;
pub use state::{Collateral, Config};

verus! {

/// Creates the configuration with the default risk parameters.
pub fn initialize_config(ctx: &mut InitializeConfig) -> (r: Result<(), ErrorCode>)
    ensures
        r is Ok <==> old(ctx).signer@ == old(ctx).deployer@ && old(ctx).config is None,
        r is Ok ==> *final(ctx) == (InitializeConfig {
            config: Some(
                old(ctx).created(LIQUIDATION_THRESHOLD, LIQUIDATION_BONUS, MIN_HEALTH_FACTOR),
            ),
            ..*old(ctx)
        }),
        r is Err ==> r->Err_0 == ErrorCode::Unauthorized && *final(ctx) == *old(ctx),
{
    ctx.init_config(LIQUIDATION_THRESHOLD, LIQUIDATION_BONUS, MIN_HEALTH_FACTOR)
}

/// Sets the minimum health factor, by the configured authority.
pub fn update_config(ctx: &mut UpdateConfig, min_health_factor: u64) -> (r: Result<(), ErrorCode>)
    ensures
        r is Ok <==> old(ctx).signer@ == old(ctx).config.authority@,
        r is Ok ==> *final(ctx) == (UpdateConfig {
            config: Config { min_health_factor, ..old(ctx).config },
            ..*old(ctx)
        }),
        r is Err ==> r->Err_0 == ErrorCode::Unauthorized && *final(ctx) == *old(ctx),
{
    ctx.update_config(min_health_factor)
}

/// Deposits collateral and mints debt against it.
pub fn deposit_collateral(ctx: &mut DepositCollateral, collateral_amount: u64, mint_amount: u64) -> (r:
    Result<(), ErrorCode>)
    ensures
        DepositCollateral::deposit_done(*old(ctx), *final(ctx), collateral_amount, mint_amount, r),
{
    ctx.deposit_collateral(collateral_amount, mint_amount)
}

/// Withdraws collateral and burns debt.
pub fn withdraw_collateral(ctx: &mut WithdrawCollateral, collateral_amount: u64, burn_amount: u64) -> (r:
    Result<(), ErrorCode>)
    ensures
        WithdrawCollateral::withdraw_done(*old(ctx), *final(ctx), collateral_amount, burn_amount, r),
{
    ctx.redeem_collateral(collateral_amount, burn_amount)
}

/// Liquidates part of an unhealthy position's debt; returns the payout.
pub fn liquidate(ctx: &mut Liquidate, amount_to_burn: u64) -> (r: Result<u64, ErrorCode>)
    ensures
        Liquidate::liquidate_done(*old(ctx), *final(ctx), amount_to_burn, r),
{
    ctx.liquidate(amount_to_burn)
}

} // verus!
