//! The global risk parameters and the per-depositor position, with the
//! deposit, withdraw and liquidation transitions at a given price.

use vstd::prelude::*;

use crate::error::ErrorCode;
use crate::math::{
    add_liquidation_bonus, calculate_health_factor, get_lamports_from_usd, health_factor,
    health_factor_computable, native_from_usd, with_bonus,
};

verus! {

/// Global risk parameters and the authority that may change them.
#[derive(Debug, Clone, Copy, PartialEq, Eq)]
pub struct Config {
    pub authority: [u8; 32],
    /// The debt token this engine mints and burns.
    pub mint: [u8; 32],
    /// Percentage of collateral value that counts toward solvency.
    pub liquidation_threshold: u64,
    /// Percentage premium paid to liquidators out of the position's collateral.
    pub liquidation_bonus: u64,
    pub min_health_factor: u64,
    pub bump: u8,
    pub mint_pda_bump: u8,
}

/// One depositor's position: collateral in custody and debt minted against it.
#[derive(Debug, Clone, Copy, PartialEq, Eq)]
pub struct Collateral {
    pub depositor: [u8; 32],
    /// Custody record that holds the native collateral.
    pub sol_treasury: [u8; 32],
    /// Token account that receives the minted debt token.
    pub mint_ata: [u8; 32],
    pub lamport_balance: u64,
    pub amount_minted: u64,
    pub bump: u8,
    pub sol_treasury_bump: u8,
    pub is_initialized: bool,
}

impl Collateral {
    /// This position with its two balances replaced.
    pub open spec fn with_balances(self, lamports: nat, minted: nat) -> Collateral {
        Collateral { lamport_balance: lamports as u64, amount_minted: minted as u64, ..self }
    }

    /// Health factor of the position as it stands, at `price`.
    pub open spec fn health(self, config: Config, price: nat) -> nat {
        health_factor(
            self.lamport_balance as nat,
            self.amount_minted as nat,
            price,
            config.liquidation_threshold as nat,
        )
    }
}

/// Balances that pass the health check: the health factor of `collateral`
/// against `debt` is computable and at least the minimum.
pub open spec fn solvency_check(collateral: nat, debt: nat, config: Config, price: nat) -> Result<
    (nat, nat),
    ErrorCode,
> {
    let t = config.liquidation_threshold as nat;
    if !health_factor_computable(collateral, debt, price, t) {
        Err(ErrorCode::ArithmeticFault)
    } else if health_factor(collateral, debt, price, t) < config.min_health_factor {
        Err(ErrorCode::BelowMinHealthFactor)
    } else {
        Ok((collateral, debt))
    }
}

/// New (collateral, debt) after depositing `amount` into a custody that held
/// `custody` and minting `mint`, or why the deposit is refused.
pub open spec fn deposit_outcome(
    custody: nat,
    debt: nat,
    config: Config,
    price: nat,
    amount: nat,
    mint: nat,
) -> Result<(nat, nat), ErrorCode> {
    if custody + amount > u64::MAX || debt + mint > u64::MAX {
        Err(ErrorCode::ArithmeticFault)
    } else {
        solvency_check(custody + amount, debt + mint, config, price)
    }
}

/// New (collateral, debt) after withdrawing `amount` from a custody that held
/// `custody` and burning `burn`, or why the withdrawal is refused.
pub open spec fn withdraw_outcome(
    custody: nat,
    debt: nat,
    config: Config,
    price: nat,
    amount: nat,
    burn: nat,
) -> Result<(nat, nat), ErrorCode> {
    if amount > custody || burn > debt {
        Err(ErrorCode::ArithmeticFault)
    } else {
        solvency_check((custody - amount) as nat, (debt - burn) as nat, config, price)
    }
}

/// (payout, new collateral, new debt) when a liquidator repays `burn` of a
/// position whose custody holds `custody` against `debt`, or why the
/// liquidation is refused.
pub open spec fn liquidation_outcome(
    custody: nat,
    debt: nat,
    config: Config,
    price: nat,
    burn: nat,
) -> Result<(nat, nat, nat), ErrorCode>
    recommends
        price > 0,
{
    let t = config.liquidation_threshold as nat;
    let lamports = native_from_usd(burn, price);
    let payout = with_bonus(lamports, config.liquidation_bonus as nat);
    if !health_factor_computable(custody, debt, price, t) {
        Err(ErrorCode::ArithmeticFault)
    } else if health_factor(custody, debt, price, t) >= config.min_health_factor {
        Err(ErrorCode::AboveMinHealthFactor)
    } else if lamports > u64::MAX || payout > u64::MAX {
        Err(ErrorCode::ArithmeticFault)
    } else if payout > custody || burn > debt {
        Err(ErrorCode::ArithmeticFault)
    } else {
        Ok((payout, (custody - payout) as nat, (debt - burn) as nat))
    }
}

/// Checks that `collateral` against `debt` meets the minimum health factor.
fn check_solvency(collateral: u64, debt: u64, config: &Config, price: u64) -> (r: Result<
    (),
    ErrorCode,
>)
    ensures
        match solvency_check(collateral as nat, debt as nat, *config, price as nat) {
            Ok(_) => r is Ok,
            Err(e) => r == Err::<(), ErrorCode>(e),
        },
{
    let factor = calculate_health_factor(collateral, debt, price, config.liquidation_threshold)?;
    if factor < config.min_health_factor {
        return Err(ErrorCode::BelowMinHealthFactor);
    }
    Ok(())
}

impl Collateral {
    /// Deposits `collateral_amount` into a custody that held `custody` and
    /// mints `mint_amount`, if the position stays healthy at `price`.
    pub fn apply_deposit(
        &mut self,
        config: &Config,
        price: u64,
        custody: u64,
        collateral_amount: u64,
        mint_amount: u64,
    ) -> (r: Result<(), ErrorCode>)
        ensures
            match deposit_outcome(
                custody as nat,
                old(self).amount_minted as nat,
                *config,
                price as nat,
                collateral_amount as nat,
                mint_amount as nat,
            ) {
                Ok((c, d)) => r == Ok::<(), ErrorCode>(()) && *final(self) == old(self).with_balances(c, d),
                Err(e) => r == Err::<(), ErrorCode>(e) && *final(self) == *old(self),
            },
    {
        let collateral = match custody.checked_add(collateral_amount) {
            Some(v) => v,
            None => return Err(ErrorCode::ArithmeticFault),
        };
        let debt = match self.amount_minted.checked_add(mint_amount) {
            Some(v) => v,
            None => return Err(ErrorCode::ArithmeticFault),
        };
        check_solvency(collateral, debt, config, price)?;
        self.lamport_balance = collateral;
        self.amount_minted = debt;
        Ok(())
    }

    /// Withdraws `collateral_amount` from a custody that holds `custody` and
    /// burns `burn_amount`, if the position stays healthy at `price`.
    pub fn apply_withdraw(
        &mut self,
        config: &Config,
        price: u64,
        custody: u64,
        collateral_amount: u64,
        burn_amount: u64,
    ) -> (r: Result<(), ErrorCode>)
        ensures
            match withdraw_outcome(
                custody as nat,
                old(self).amount_minted as nat,
                *config,
                price as nat,
                collateral_amount as nat,
                burn_amount as nat,
            ) {
                Ok((c, d)) => r == Ok::<(), ErrorCode>(()) && *final(self) == old(self).with_balances(c, d),
                Err(e) => r == Err::<(), ErrorCode>(e) && *final(self) == *old(self),
            },
    {
        let collateral = match custody.checked_sub(collateral_amount) {
            Some(v) => v,
            None => return Err(ErrorCode::ArithmeticFault),
        };
        let debt = match self.amount_minted.checked_sub(burn_amount) {
            Some(v) => v,
            None => return Err(ErrorCode::ArithmeticFault),
        };
        check_solvency(collateral, debt, config, price)?;
        self.lamport_balance = collateral;
        self.amount_minted = debt;
        Ok(())
    }

    /// Liquidates `amount_to_burn` of debt from a position whose custody
    /// holds `custody`, if its health factor on that collateral is under the
    /// minimum; returns the native units paid to the liquidator.
    pub fn apply_liquidation(
        &mut self,
        config: &Config,
        price: u64,
        custody: u64,
        amount_to_burn: u64,
    ) -> (r: Result<u64, ErrorCode>)
        requires
            price > 0,
        ensures
            match liquidation_outcome(
                custody as nat,
                old(self).amount_minted as nat,
                *config,
                price as nat,
                amount_to_burn as nat,
            ) {
                Ok((p, c, d)) => r == Ok::<u64, ErrorCode>(p as u64) && *final(self) == old(
                    self,
                ).with_balances(c, d),
                Err(e) => r == Err::<u64, ErrorCode>(e) && *final(self) == *old(self),
            },
    {
        let factor = calculate_health_factor(
            custody,
            self.amount_minted,
            price,
            config.liquidation_threshold,
        )?;
        if factor >= config.min_health_factor {
            return Err(ErrorCode::AboveMinHealthFactor);
        }
        let lamports = get_lamports_from_usd(amount_to_burn, price)?;
        let payout = add_liquidation_bonus(lamports, config.liquidation_bonus)?;
        if payout > custody || amount_to_burn > self.amount_minted {
            return Err(ErrorCode::ArithmeticFault);
        }
        self.lamport_balance = custody - payout;
        self.amount_minted = self.amount_minted - amount_to_burn;
        Ok(payout)
    }
}

} // verus!
