//! Fixed-point conversions between native units and USD-scaled integers.
//! Every product is taken in 128 bits before any division; every division
//! truncates; whatever does not fit the 64-bit result is an arithmetic fault.

use vstd::prelude::*;
use vstd::arithmetic::div_mod::{lemma_fundamental_div_mod, lemma_fundamental_div_mod_converse};

use crate::constants::{MAX_HEALTH_FACTOR, NATIVE_UNIT};
use crate::error::ErrorCode;

verus! {

/// USD value of `amount` native units at `price` (USD-scaled, per whole unit).
pub open spec fn usd_value(amount: nat, price: nat) -> nat {
    amount * price / (NATIVE_UNIT as nat)
}

/// USD value after the liquidation-threshold haircut (a percentage).
pub open spec fn adjusted_value(amount: nat, price: nat, threshold: nat) -> nat {
    usd_value(amount, price) * threshold / 100
}

/// The health factor: haircut collateral value per unit of debt, floored;
/// the maximum sentinel when there is no debt.
pub open spec fn health_factor(collateral: nat, debt: nat, price: nat, threshold: nat) -> nat {
    if debt == 0 {
        MAX_HEALTH_FACTOR as nat
    } else {
        adjusted_value(collateral, price, threshold) / debt
    }
}

/// The health factor can be computed with 128-bit intermediates and fits 64 bits.
pub open spec fn health_factor_computable(
    collateral: nat,
    debt: nat,
    price: nat,
    threshold: nat,
) -> bool {
    debt == 0 || (usd_value(collateral, price) * threshold <= u128::MAX
        && health_factor(collateral, debt, price, threshold) <= u64::MAX)
}

/// Native units bought by `usd` debt units at `price`, truncated.
pub open spec fn native_from_usd(usd: nat, price: nat) -> nat
    recommends
        price > 0,
{
    usd * (NATIVE_UNIT as nat) / price
}

/// `lamports` plus a `bonus` percent premium, truncated.
pub open spec fn with_bonus(lamports: nat, bonus: nat) -> nat {
    lamports * (100 + bonus) / 100
}

/// Converts a native amount to its USD value; never overflows.
pub fn to_usd(amount: u64, price: u64) -> (r: u128)
    ensures
        r == usd_value(amount as nat, price as nat),
{
    let a = amount as u128;
    let p = price as u128;
    assert(a * p <= u128::MAX) by (nonlinear_arith)
        requires
            a <= u64::MAX,
            p <= u64::MAX,
    ;
    a * p / (NATIVE_UNIT as u128)
}

/// The health factor of `collateral_amount` native units against `debt`,
/// with the liquidation threshold `threshold` percent.
pub fn calculate_health_factor(collateral_amount: u64, debt: u64, price: u64, threshold: u64) -> (r:
    Result<u64, ErrorCode>)
    ensures
        r is Ok <==> health_factor_computable(
            collateral_amount as nat,
            debt as nat,
            price as nat,
            threshold as nat,
        ),
        r is Ok ==> r->Ok_0 == health_factor(
            collateral_amount as nat,
            debt as nat,
            price as nat,
            threshold as nat,
        ),
        r is Err ==> r->Err_0 == ErrorCode::ArithmeticFault,
{
    if debt == 0 {
        return Ok(MAX_HEALTH_FACTOR);
    }
    let value = to_usd(collateral_amount, price);
    let scaled = match value.checked_mul(threshold as u128) {
        Some(v) => v,
        None => return Err(ErrorCode::ArithmeticFault),
    };
    let adjusted = scaled / 100;
    let factor = adjusted / (debt as u128);
    if factor > u64::MAX as u128 {
        return Err(ErrorCode::ArithmeticFault);
    }
    Ok(factor as u64)
}

/// Native units worth `usd_amount` debt units at `price`.
pub fn get_lamports_from_usd(usd_amount: u64, price: u64) -> (r: Result<u64, ErrorCode>)
    requires
        price > 0,
    ensures
        r is Ok <==> native_from_usd(usd_amount as nat, price as nat) <= u64::MAX,
        r is Ok ==> r->Ok_0 == native_from_usd(usd_amount as nat, price as nat),
        r is Err ==> r->Err_0 == ErrorCode::ArithmeticFault,
{
    let u = usd_amount as u128;
    let n = NATIVE_UNIT as u128;
    assert(u * n <= u128::MAX) by (nonlinear_arith)
        requires
            u <= u64::MAX,
            n == NATIVE_UNIT,
    ;
    let lamports = u * n / (price as u128);
    if lamports > u64::MAX as u128 {
        return Err(ErrorCode::ArithmeticFault);
    }
    Ok(lamports as u64)
}

/// `lamports` with a `bonus` percent premium added.
pub fn add_liquidation_bonus(lamports: u64, bonus: u64) -> (r: Result<u64, ErrorCode>)
    ensures
        r is Ok <==> with_bonus(lamports as nat, bonus as nat) <= u64::MAX,
        r is Ok ==> r->Ok_0 == with_bonus(lamports as nat, bonus as nat),
        r is Err ==> r->Err_0 == ErrorCode::ArithmeticFault,
{
    let l = lamports as u128;
    let b = bonus as u128;
    assert(l * b <= u128::MAX) by (nonlinear_arith)
        requires
            l <= u64::MAX,
            b <= u64::MAX,
    ;
    let premium = l * b / 100;
    let total = l + premium;
    proof {
        let lb = (l * b) as int;
        lemma_fundamental_div_mod(lb, 100);
        assert(l * (100 + b) == 100 * l + l * b) by (nonlinear_arith);
        lemma_fundamental_div_mod_converse(
            (l * (100 + b)) as int,
            100,
            l + lb / 100,
            lb % 100,
        );
    }
    if total > u64::MAX as u128 {
        return Err(ErrorCode::ArithmeticFault);
    }
    Ok(total as u64)
}

} // verus!
