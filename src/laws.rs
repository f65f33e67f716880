//! Properties that relate the engine's rules across inputs and operations.

use vstd::prelude::*;

use crate::constants::{MAX_AGE, MAX_HEALTH_FACTOR, NATIVE_UNIT};
use crate::contexts::{DepositCollateral, Liquidate, WithdrawCollateral};
use crate::error::ErrorCode;
use crate::oracle::{price_reading, PriceFeed};
use crate::math::{health_factor, health_factor_computable, native_from_usd, usd_value, with_bonus};
use crate::state::{
    deposit_outcome, liquidation_outcome, solvency_check, withdraw_outcome, Collateral, Config,
};

verus! {

/// With a threshold of at most 100 percent, the haircut value of any 64-bit
/// collateral at any 64-bit price fits the 128-bit intermediate, and the
/// health factor against a nonzero debt is the floor formula
/// `floor(floor(collateral * price / unit) * threshold / 100 / debt)`; it is
/// reported whenever it fits 64 bits.
pub proof fn health_factor_formula(collateral: u64, debt: u64, price: u64, threshold: u64)
    requires
        debt > 0,
        threshold <= 100,
    ensures
        usd_value(collateral as nat, price as nat) * threshold <= u128::MAX,
        health_factor(collateral as nat, debt as nat, price as nat, threshold as nat) == (
        collateral * price / NATIVE_UNIT as int) * threshold / 100 / debt as int,
        health_factor_computable(collateral as nat, debt as nat, price as nat, threshold as nat)
            <==> health_factor(collateral as nat, debt as nat, price as nat, threshold as nat)
            <= u64::MAX,
{
    let v = usd_value(collateral as nat, price as nat);
    assert(collateral as nat * price as nat <= u64::MAX as nat * u64::MAX as nat) by (
    nonlinear_arith)
        requires
            collateral <= u64::MAX,
            price <= u64::MAX,
    ;
    let m = collateral as nat * price as nat;
    vstd::arithmetic::div_mod::lemma_fundamental_div_mod(m as int, 1_000_000_000int);
    assert(v * 1_000_000_000 <= m);
    assert(v * threshold <= u128::MAX) by (nonlinear_arith)
        requires
            v * 1_000_000_000 <= m,
            m <= u64::MAX as nat * u64::MAX as nat,
            threshold <= 100,
    ;
}

/// A position without debt has the maximum health factor, whatever its
/// collateral, price and threshold.
pub proof fn debt_free_has_max_health(collateral: u64, price: u64, threshold: u64)
    ensures
        health_factor_computable(collateral as nat, 0, price as nat, threshold as nat),
        health_factor(collateral as nat, 0, price as nat, threshold as nat) == MAX_HEALTH_FACTOR,
{
}

/// A deposit whose balances fit is refused with `BelowMinHealthFactor`
/// exactly when the health factor after it is under the minimum; at the
/// minimum it is accepted with the new balances.
pub proof fn deposit_refused_iff_below_minimum(
    custody: u64,
    debt: u64,
    config: Config,
    price: u64,
    amount: u64,
    mint: u64,
)
    requires
        custody + amount <= u64::MAX,
        debt + mint <= u64::MAX,
        health_factor_computable(
            (custody + amount) as nat,
            (debt + mint) as nat,
            price as nat,
            config.liquidation_threshold as nat,
        ),
    ensures
        ({
            let h = health_factor(
                (custody + amount) as nat,
                (debt + mint) as nat,
                price as nat,
                config.liquidation_threshold as nat,
            );
            let o = deposit_outcome(
                custody as nat,
                debt as nat,
                config,
                price as nat,
                amount as nat,
                mint as nat,
            );
            &&& o == Err::<(nat, nat), _>(crate::error::ErrorCode::BelowMinHealthFactor) <==> h
                < config.min_health_factor
            &&& h >= config.min_health_factor ==> o == Ok::<_, crate::error::ErrorCode>(
                ((custody + amount) as nat, (debt + mint) as nat),
            )
        }),
{
}

/// A withdrawal that the balances cover is refused with
/// `BelowMinHealthFactor` exactly when the health factor after it is under
/// the minimum; otherwise it is accepted with the new balances.
pub proof fn withdraw_refused_iff_below_minimum(
    custody: u64,
    debt: u64,
    config: Config,
    price: u64,
    amount: u64,
    burn: u64,
)
    requires
        amount <= custody,
        burn <= debt,
        health_factor_computable(
            (custody - amount) as nat,
            (debt - burn) as nat,
            price as nat,
            config.liquidation_threshold as nat,
        ),
    ensures
        ({
            let h = health_factor(
                (custody - amount) as nat,
                (debt - burn) as nat,
                price as nat,
                config.liquidation_threshold as nat,
            );
            let o = withdraw_outcome(
                custody as nat,
                debt as nat,
                config,
                price as nat,
                amount as nat,
                burn as nat,
            );
            &&& o == Err::<(nat, nat), _>(crate::error::ErrorCode::BelowMinHealthFactor) <==> h
                < config.min_health_factor
            &&& h >= config.min_health_factor ==> o == Ok::<_, crate::error::ErrorCode>(
                ((custody - amount) as nat, (debt - burn) as nat),
            )
        }),
{
}

/// A liquidation of a position whose health factor is computable is refused
/// with `AboveMinHealthFactor` exactly when that health factor, on the
/// collateral in custody before the liquidation, is at least the minimum; an
/// accepted one pays `native_from_usd(burn, price)` with the bonus percent
/// added, and lowers the debt by exactly `burn`.
pub proof fn liquidation_refused_iff_healthy(
    custody: u64,
    debt: u64,
    config: Config,
    price: u64,
    burn: u64,
)
    requires
        price > 0,
        health_factor_computable(
            custody as nat,
            debt as nat,
            price as nat,
            config.liquidation_threshold as nat,
        ),
    ensures
        ({
            let o = liquidation_outcome(
                custody as nat,
                debt as nat,
                config,
                price as nat,
                burn as nat,
            );
            &&& o == Err::<(nat, nat, nat), _>(crate::error::ErrorCode::AboveMinHealthFactor)
                <==> health_factor(
                custody as nat,
                debt as nat,
                price as nat,
                config.liquidation_threshold as nat,
            ) >= config.min_health_factor
            &&& o is Ok ==> o->Ok_0.0 == with_bonus(
                native_from_usd(burn as nat, price as nat),
                config.liquidation_bonus as nat,
            ) && o->Ok_0.2 == debt - burn
        }),
{
}

/// A deposit of `amount` with `mint` followed, at the same price, by a
/// withdrawal of `amount` with `mint` burned is accepted exactly when the
/// position passed the health check before the deposit, and then restores
/// the position's balances exactly.
pub proof fn deposit_then_withdraw_restores(
    pos: Collateral,
    config: Config,
    price: u64,
    amount: u64,
    mint: u64,
)
    requires
        deposit_outcome(
            pos.lamport_balance as nat,
            pos.amount_minted as nat,
            config,
            price as nat,
            amount as nat,
            mint as nat,
        ) is Ok,
    ensures
        ({
            let (c, d) = deposit_outcome(
                pos.lamport_balance as nat,
                pos.amount_minted as nat,
                config,
                price as nat,
                amount as nat,
                mint as nat,
            )->Ok_0;
            let w = withdraw_outcome(c, d, config, price as nat, amount as nat, mint as nat);
            &&& w is Ok <==> solvency_check(
                pos.lamport_balance as nat,
                pos.amount_minted as nat,
                config,
                price as nat,
            ) is Ok
            &&& w is Ok ==> pos.with_balances(c, d).with_balances(w->Ok_0.0, w->Ok_0.1) == pos
        }),
{
}

/// A feed update published more than `MAX_AGE` seconds before `now` is
/// refused as stale.
pub proof fn stale_price_is_refused(feed: PriceFeed, now: i64)
    requires
        feed.publish_time + MAX_AGE < now,
    ensures
        price_reading(feed, now) == Err::<u64, ErrorCode>(ErrorCode::StaleOrInvalidPrice),
{
}

/// With a stale price, an owner's deposit fails with `StaleOrInvalidPrice`
/// and changes nothing.
pub proof fn stale_price_refuses_deposit(
    before: DepositCollateral,
    after: DepositCollateral,
    collateral_amount: u64,
    mint_amount: u64,
    r: Result<(), ErrorCode>,
)
    requires
        before.price_feed.publish_time + MAX_AGE < before.now,
        before.authorized(),
        DepositCollateral::deposit_done(before, after, collateral_amount, mint_amount, r),
    ensures
        r == Err::<(), ErrorCode>(ErrorCode::StaleOrInvalidPrice),
        after == before,
{
}

/// With a stale price, an owner's withdrawal fails with
/// `StaleOrInvalidPrice` and changes nothing.
pub proof fn stale_price_refuses_withdraw(
    before: WithdrawCollateral,
    after: WithdrawCollateral,
    collateral_amount: u64,
    burn_amount: u64,
    r: Result<(), ErrorCode>,
)
    requires
        before.price_feed.publish_time + MAX_AGE < before.now,
        before.authorized(),
        WithdrawCollateral::withdraw_done(before, after, collateral_amount, burn_amount, r),
    ensures
        r == Err::<(), ErrorCode>(ErrorCode::StaleOrInvalidPrice),
        after == before,
{
}

/// With a stale price, a liquidation fails with `StaleOrInvalidPrice` and
/// changes nothing.
pub proof fn stale_price_refuses_liquidation(
    before: Liquidate,
    after: Liquidate,
    amount_to_burn: u64,
    r: Result<u64, ErrorCode>,
)
    requires
        before.price_feed.publish_time + MAX_AGE < before.now,
        Liquidate::liquidate_done(before, after, amount_to_burn, r),
    ensures
        r == Err::<u64, ErrorCode>(ErrorCode::StaleOrInvalidPrice),
        after == before,
{
}

/// With a usable price and balances that fit, an owner's deposit is refused
/// with `BelowMinHealthFactor`, leaving the position unchanged, exactly when
/// the health factor after it is under the minimum; at or above the
/// minimum it is accepted.
pub proof fn deposit_operation_refused_iff_below_minimum(
    before: DepositCollateral,
    after: DepositCollateral,
    collateral_amount: u64,
    mint_amount: u64,
    r: Result<(), ErrorCode>,
)
    requires
        DepositCollateral::deposit_done(before, after, collateral_amount, mint_amount, r),
        before.authorized(),
        price_reading(before.price_feed, before.now) is Ok,
        before.sol_treasury_lamports + collateral_amount <= u64::MAX,
        before.treasury.amount_minted + mint_amount <= u64::MAX,
        health_factor_computable(
            (before.sol_treasury_lamports + collateral_amount) as nat,
            (before.treasury.amount_minted + mint_amount) as nat,
            price_reading(before.price_feed, before.now)->Ok_0 as nat,
            before.config.liquidation_threshold as nat,
        ),
    ensures
        ({
            let h = health_factor(
                (before.sol_treasury_lamports + collateral_amount) as nat,
                (before.treasury.amount_minted + mint_amount) as nat,
                price_reading(before.price_feed, before.now)->Ok_0 as nat,
                before.config.liquidation_threshold as nat,
            );
            &&& r == Err::<(), ErrorCode>(ErrorCode::BelowMinHealthFactor) <==> h
                < before.config.min_health_factor
            &&& r is Err ==> after == before
            &&& h >= before.config.min_health_factor ==> r == Ok::<(), ErrorCode>(())
        }),
{
}

/// With a usable price and balances that cover it, an owner's withdrawal is
/// refused with `BelowMinHealthFactor`, leaving the position unchanged,
/// exactly when the health factor after it is under the minimum; at or
/// above the minimum it is accepted.
pub proof fn withdraw_operation_refused_iff_below_minimum(
    before: WithdrawCollateral,
    after: WithdrawCollateral,
    collateral_amount: u64,
    burn_amount: u64,
    r: Result<(), ErrorCode>,
)
    requires
        WithdrawCollateral::withdraw_done(before, after, collateral_amount, burn_amount, r),
        before.authorized(),
        price_reading(before.price_feed, before.now) is Ok,
        collateral_amount <= before.sol_treasury_lamports,
        burn_amount <= before.treasury.amount_minted,
        health_factor_computable(
            (before.sol_treasury_lamports - collateral_amount) as nat,
            (before.treasury.amount_minted - burn_amount) as nat,
            price_reading(before.price_feed, before.now)->Ok_0 as nat,
            before.config.liquidation_threshold as nat,
        ),
    ensures
        ({
            let h = health_factor(
                (before.sol_treasury_lamports - collateral_amount) as nat,
                (before.treasury.amount_minted - burn_amount) as nat,
                price_reading(before.price_feed, before.now)->Ok_0 as nat,
                before.config.liquidation_threshold as nat,
            );
            &&& r == Err::<(), ErrorCode>(ErrorCode::BelowMinHealthFactor) <==> h
                < before.config.min_health_factor
            &&& r is Err ==> after == before
            &&& h >= before.config.min_health_factor ==> r == Ok::<(), ErrorCode>(())
        }),
{
}

/// With a usable price and a computable health factor on the collateral in
/// custody, a liquidation is refused with `AboveMinHealthFactor`, leaving the
/// position unchanged, exactly when that health factor is at least the
/// minimum; an accepted one pays `native_from_usd(burn, price)` with the
/// bonus percent added and lowers the debt by exactly the amount burned.
pub proof fn liquidate_operation_refused_iff_healthy(
    before: Liquidate,
    after: Liquidate,
    amount_to_burn: u64,
    r: Result<u64, ErrorCode>,
)
    requires
        Liquidate::liquidate_done(before, after, amount_to_burn, r),
        price_reading(before.price_feed, before.now) is Ok,
        health_factor_computable(
            before.sol_treasury_lamports as nat,
            before.treasury.amount_minted as nat,
            price_reading(before.price_feed, before.now)->Ok_0 as nat,
            before.config.liquidation_threshold as nat,
        ),
    ensures
        ({
            let price = price_reading(before.price_feed, before.now)->Ok_0;
            &&& r == Err::<u64, ErrorCode>(ErrorCode::AboveMinHealthFactor) <==> health_factor(
                before.sol_treasury_lamports as nat,
                before.treasury.amount_minted as nat,
                price as nat,
                before.config.liquidation_threshold as nat,
            ) >= before.config.min_health_factor
            &&& r is Err ==> after == before
            &&& r is Ok ==> r->Ok_0 == with_bonus(
                native_from_usd(amount_to_burn as nat, price as nat),
                before.config.liquidation_bonus as nat,
            ) && after.treasury.amount_minted == before.treasury.amount_minted - amount_to_burn
        }),
{
}

} // verus!
