//! The operations as the host hands them over: the accounts an operation
//! reads, the live price feed and the clock, and the transition it applies.
//! Custody transfers, mints and burns are carried out by the host after an
//! operation succeeds, with the amounts it names.

use vstd::prelude::*;

use crate::error::ErrorCode;
use crate::oracle::{price_reading, read_price, PriceFeed};
use crate::state::{deposit_outcome, liquidation_outcome, withdraw_outcome, Collateral, Config};

verus! {

/// Whether two 32-byte identities are the same.
pub fn same_identity(a: &[u8; 32], b: &[u8; 32]) -> (r: bool)
    ensures
        r == (a@ == b@),
{
    let mut i: usize = 0;
    while i < 32
        invariant
            0 <= i <= 32,
            a@.len() == 32,
            b@.len() == 32,
            forall|j: int| 0 <= j < i ==> a@[j] == b@[j],
        decreases 32 - i,
    {
        if a[i] != b[i] {
            return false;
        }
        i += 1;
    }
    assert(a@ =~= b@);
    true
}

/// Creating the global configuration, once, by the deployer.
pub struct InitializeConfig {
    pub signer: [u8; 32],
    /// The identity allowed to create the configuration.
    pub deployer: [u8; 32],
    /// The debt token the configuration will control.
    pub mint: [u8; 32],
    pub config_bump: u8,
    pub mint_bump: u8,
    /// The configuration, once created.
    pub config: Option<Config>,
}

impl InitializeConfig {
    /// The configuration this context creates with the given parameters.
    pub open spec fn created(
        self,
        liquidation_threshold: u64,
        liquidation_bonus: u64,
        min_health_factor: u64,
    ) -> Config {
        Config {
            authority: self.signer,
            mint: self.mint,
            liquidation_threshold,
            liquidation_bonus,
            min_health_factor,
            bump: self.config_bump,
            mint_pda_bump: self.mint_bump,
        }
    }

    /// Creates the configuration; only the deployer may, and only once.
    pub fn init_config(
        &mut self,
        liquidation_threshold: u64,
        liquidation_bonus: u64,
        min_health_factor: u64,
    ) -> (r: Result<(), ErrorCode>)
        ensures
            r is Ok <==> old(self).signer@ == old(self).deployer@ && old(self).config is None,
            r is Ok ==> *final(self) == (InitializeConfig {
                config: Some(
                    old(self).created(liquidation_threshold, liquidation_bonus, min_health_factor),
                ),
                ..*old(self)
            }),
            r is Err ==> r->Err_0 == ErrorCode::Unauthorized && *final(self) == *old(self),
    {
        if !same_identity(&self.signer, &self.deployer) || self.config.is_some() {
            return Err(ErrorCode::Unauthorized);
        }
        self.config = Some(
            Config {
                authority: self.signer,
                mint: self.mint,
                liquidation_threshold,
                liquidation_bonus,
                min_health_factor,
                bump: self.config_bump,
                mint_pda_bump: self.mint_bump,
            },
        );
        Ok(())
    }
}

/// Changing the minimum health factor, by the configured authority.
pub struct UpdateConfig {
    pub signer: [u8; 32],
    pub config: Config,
}

impl UpdateConfig {
    /// Overwrites the minimum health factor; nothing else can change.
    pub fn update_config(&mut self, min_health_factor: u64) -> (r: Result<(), ErrorCode>)
        ensures
            r is Ok <==> old(self).signer@ == old(self).config.authority@,
            r is Ok ==> *final(self) == (UpdateConfig {
                config: Config { min_health_factor, ..old(self).config },
                ..*old(self)
            }),
            r is Err ==> r->Err_0 == ErrorCode::Unauthorized && *final(self) == *old(self),
    {
        if !same_identity(&self.signer, &self.config.authority) {
            return Err(ErrorCode::Unauthorized);
        }
        self.config.min_health_factor = min_health_factor;
        Ok(())
    }
}

/// Depositing collateral and minting debt against it. The first deposit of
/// a depositor opens the position.
pub struct DepositCollateral {
    pub depositor: [u8; 32],
    pub config: Config,
    pub treasury: Collateral,
    /// Custody record of the position's collateral.
    pub sol_treasury: [u8; 32],
    /// What that custody record holds before the deposit.
    pub sol_treasury_lamports: u64,
    pub mint_ata: [u8; 32],
    pub treasury_bump: u8,
    pub sol_treasury_bump: u8,
    /// The last update of the price feed.
    pub price_feed: PriceFeed,
    /// Current unix time, in seconds.
    pub now: i64,
}

impl DepositCollateral {
    /// Only the owner deposits into an open position.
    pub open spec fn authorized(self) -> bool {
        !self.treasury.is_initialized || self.treasury.depositor@ == self.depositor@
    }

    /// The position, opened for the depositor if it was not yet.
    pub open spec fn opened(self) -> Collateral {
        if self.treasury.is_initialized {
            self.treasury
        } else {
            Collateral {
                depositor: self.depositor,
                sol_treasury: self.sol_treasury,
                mint_ata: self.mint_ata,
                bump: self.treasury_bump,
                sol_treasury_bump: self.sol_treasury_bump,
                is_initialized: true,
                ..self.treasury
            }
        }
    }

    /// Result and position of a deposit at `price`.
    pub open spec fn effect(self, price: u64, collateral_amount: u64, mint_amount: u64) -> (
        Result<(), ErrorCode>,
        Collateral,
    ) {
        match deposit_outcome(
            self.sol_treasury_lamports as nat,
            self.treasury.amount_minted as nat,
            self.config,
            price as nat,
            collateral_amount as nat,
            mint_amount as nat,
        ) {
            Ok((c, d)) => (Ok(()), self.opened().with_balances(c, d)),
            Err(e) => (Err(e), self.treasury),
        }
    }

    /// How a deposit call relates `before` to `after`: refused for anyone
    /// but the owner, refused as the price reading is when it fails, and
    /// otherwise the deposit at the price read.
    pub open spec fn deposit_done(
        before: Self,
        after: Self,
        collateral_amount: u64,
        mint_amount: u64,
        r: Result<(), ErrorCode>,
    ) -> bool {
        &&& after == (DepositCollateral { treasury: after.treasury, ..before })
        &&& if !before.authorized() {
            r == Err::<(), ErrorCode>(ErrorCode::Unauthorized) && after.treasury == before.treasury
        } else {
            match price_reading(before.price_feed, before.now) {
                Err(e) => r == Err::<(), ErrorCode>(e) && after.treasury == before.treasury,
                Ok(price) => (r, after.treasury) == before.effect(
                    price,
                    collateral_amount,
                    mint_amount,
                ),
            }
        }
    }

    /// Deposits `collateral_amount` native units and mints `mint_amount` debt
    /// units, if the position's health factor after both meets the minimum.
    /// On success the host moves the collateral into custody and mints.
    pub fn deposit_collateral(&mut self, collateral_amount: u64, mint_amount: u64) -> (r: Result<
        (),
        ErrorCode,
    >)
        ensures
            Self::deposit_done(*old(self), *final(self), collateral_amount, mint_amount, r),
    {
        if self.treasury.is_initialized && !same_identity(&self.treasury.depositor, &self.depositor) {
            return Err(ErrorCode::Unauthorized);
        }
        let price = read_price(&self.price_feed, self.now)?;
        let mut position = self.treasury;
        if !position.is_initialized {
            position.is_initialized = true;
            position.depositor = self.depositor;
            position.sol_treasury = self.sol_treasury;
            position.mint_ata = self.mint_ata;
            position.bump = self.treasury_bump;
            position.sol_treasury_bump = self.sol_treasury_bump;
        }
        let r = position.apply_deposit(
            &self.config,
            price,
            self.sol_treasury_lamports,
            collateral_amount,
            mint_amount,
        );
        if r.is_ok() {
            self.treasury = position;
        }
        assert((r, self.treasury) == old(self).effect(price, collateral_amount, mint_amount));
        r
    }
}

/// Withdrawing collateral and burning debt, by the position's owner.
pub struct WithdrawCollateral {
    pub depositor: [u8; 32],
    pub config: Config,
    pub treasury: Collateral,
    /// What the position's custody record holds before the withdrawal.
    pub sol_treasury_lamports: u64,
    /// The last update of the price feed.
    pub price_feed: PriceFeed,
    /// Current unix time, in seconds.
    pub now: i64,
}

impl WithdrawCollateral {
    /// Only the owner of an open position withdraws from it.
    pub open spec fn authorized(self) -> bool {
        self.treasury.is_initialized && self.treasury.depositor@ == self.depositor@
    }

    /// Result and position of a withdrawal at `price`.
    pub open spec fn effect(self, price: u64, collateral_amount: u64, burn_amount: u64) -> (
        Result<(), ErrorCode>,
        Collateral,
    ) {
        match withdraw_outcome(
            self.sol_treasury_lamports as nat,
            self.treasury.amount_minted as nat,
            self.config,
            price as nat,
            collateral_amount as nat,
            burn_amount as nat,
        ) {
            Ok((c, d)) => (Ok(()), self.treasury.with_balances(c, d)),
            Err(e) => (Err(e), self.treasury),
        }
    }

    /// How a withdrawal call relates `before` to `after`: refused for anyone
    /// but the owner, refused as the price reading is when it fails, and
    /// otherwise the withdrawal at the price read.
    pub open spec fn withdraw_done(
        before: Self,
        after: Self,
        collateral_amount: u64,
        burn_amount: u64,
        r: Result<(), ErrorCode>,
    ) -> bool {
        &&& after == (WithdrawCollateral { treasury: after.treasury, ..before })
        &&& if !before.authorized() {
            r == Err::<(), ErrorCode>(ErrorCode::Unauthorized) && after.treasury == before.treasury
        } else {
            match price_reading(before.price_feed, before.now) {
                Err(e) => r == Err::<(), ErrorCode>(e) && after.treasury == before.treasury,
                Ok(price) => (r, after.treasury) == before.effect(
                    price,
                    collateral_amount,
                    burn_amount,
                ),
            }
        }
    }

    /// Withdraws `collateral_amount` native units and burns `burn_amount` debt
    /// units, if the position's health factor after both meets the minimum.
    /// On success the host burns the debt token and releases the collateral.
    pub fn redeem_collateral(&mut self, collateral_amount: u64, burn_amount: u64) -> (r: Result<
        (),
        ErrorCode,
    >)
        ensures
            Self::withdraw_done(*old(self), *final(self), collateral_amount, burn_amount, r),
    {
        if !self.treasury.is_initialized || !same_identity(
            &self.treasury.depositor,
            &self.depositor,
        ) {
            return Err(ErrorCode::Unauthorized);
        }
        let price = read_price(&self.price_feed, self.now)?;
        let mut position = self.treasury;
        let r = position.apply_withdraw(
            &self.config,
            price,
            self.sol_treasury_lamports,
            collateral_amount,
            burn_amount,
        );
        self.treasury = position;
        assert((r, self.treasury) == old(self).effect(price, collateral_amount, burn_amount));
        r
    }
}

/// Repaying part of an unhealthy position's debt in exchange for its
/// collateral plus a bonus. Anyone may liquidate.
pub struct Liquidate {
    pub liquidator: [u8; 32],
    pub config: Config,
    pub treasury: Collateral,
    /// What the position's custody record holds before the liquidation.
    pub sol_treasury_lamports: u64,
    /// The last update of the price feed.
    pub price_feed: PriceFeed,
    /// Current unix time, in seconds.
    pub now: i64,
}

impl Liquidate {
    /// Payout and position of a liquidation at `price`.
    pub open spec fn effect(self, price: u64, amount_to_burn: u64) -> (
        Result<u64, ErrorCode>,
        Collateral,
    ) {
        match liquidation_outcome(
            self.sol_treasury_lamports as nat,
            self.treasury.amount_minted as nat,
            self.config,
            price as nat,
            amount_to_burn as nat,
        ) {
            Ok((p, c, d)) => (Ok(p as u64), self.treasury.with_balances(c, d)),
            Err(e) => (Err(e), self.treasury),
        }
    }

    /// How a liquidation call relates `before` to `after`: refused as the
    /// price reading is when it fails, and otherwise the liquidation at the
    /// price read.
    pub open spec fn liquidate_done(
        before: Self,
        after: Self,
        amount_to_burn: u64,
        r: Result<u64, ErrorCode>,
    ) -> bool {
        &&& after == (Liquidate { treasury: after.treasury, ..before })
        &&& match price_reading(before.price_feed, before.now) {
            Err(e) => r == Err::<u64, ErrorCode>(e) && after.treasury == before.treasury,
            Ok(price) => (r, after.treasury) == before.effect(price, amount_to_burn),
        }
    }

    /// Liquidates `amount_to_burn` debt units of a position under the minimum
    /// health factor; returns the native units owed to the liquidator, whom
    /// the host pays from custody before burning the liquidator's debt token.
    pub fn liquidate(&mut self, amount_to_burn: u64) -> (r: Result<u64, ErrorCode>)
        ensures
            Self::liquidate_done(*old(self), *final(self), amount_to_burn, r),
    {
        let price = read_price(&self.price_feed, self.now)?;
        let mut position = self.treasury;
        let r = position.apply_liquidation(
            &self.config,
            price,
            self.sol_treasury_lamports,
            amount_to_burn,
        );
        self.treasury = position;
        assert((r, self.treasury) == old(self).effect(price, amount_to_burn));
        r
    }
}

} // verus!
