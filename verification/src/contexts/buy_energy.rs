//! Opening a purchase: the consumer asks for energy and puts the price in
//! escrow.

use crate::state::{
    calculate_usdc_amount, DeVoltError, DeVoltEscrow, EscrowState, Pubkey, TransactionType,
    VOLTS_PER_USDC,
};
use crate::token::{transfer_checked, transfer_fault, Mint, TokenAccount};
use vstd::prelude::*;

verus! {

/// The accounts that opening a purchase touches. `devolt_escrow` is the
/// record that the operation writes, `devolt_escrow_usdc_account` the account
/// that holds the price until settlement.
#[derive(Clone, Copy, Debug, PartialEq, Eq)]
pub struct BuyEnergy {
    pub devolt: Pubkey,
    pub consumer: Pubkey,
    pub usdc_mint: Mint,
    pub volt_mint: Mint,
    pub consumer_usdc_account: TokenAccount,
    pub devolt_usdc_account: TokenAccount,
    pub devolt_volt_account: TokenAccount,
    pub devolt_escrow: DeVoltEscrow,
    pub devolt_escrow_usdc_account: TokenAccount,
}

/// The bump of each address that the operation derives.
#[derive(Clone, Copy, Debug, PartialEq, Eq)]
pub struct BuyEnergyBumps {
    pub devolt_escrow: u8,
}

impl BuyEnergy {
    /// The record of a purchase of `energy_amount` units of energy.
    pub open spec fn escrow_for(&self, seed: u64, energy_amount: u64, bump: u8) -> DeVoltEscrow {
        DeVoltEscrow {
            seed,
            bump,
            maker: self.consumer,
            devolt: self.devolt,
            maker_usdc_account: self.consumer_usdc_account.key,
            devolt_usdc_account: self.devolt_escrow_usdc_account.key,
            devolt_volt_account: self.devolt_volt_account.key,
            usdc_mint: self.usdc_mint.key,
            volt_mint: self.volt_mint.key,
            volts: energy_amount,
            usdc: energy_amount / VOLTS_PER_USDC,
            transaction: TransactionType::Buy,
            state: EscrowState::Pending,
        }
    }

    /// Why the consumer's payment into escrow fails, if it does.
    pub open spec fn fault(&self, energy_amount: u64) -> Option<DeVoltError> {
        transfer_fault(
            self.consumer_usdc_account,
            self.devolt_escrow_usdc_account,
            energy_amount / VOLTS_PER_USDC,
        )
    }

    /// The accounts after a purchase of `energy_amount` was opened.
    pub open spec fn opened(&self, seed: u64, energy_amount: u64, bump: u8) -> BuyEnergy {
        BuyEnergy {
            consumer_usdc_account: self.consumer_usdc_account.debited(
                energy_amount / VOLTS_PER_USDC,
            ),
            devolt_escrow_usdc_account: self.devolt_escrow_usdc_account.credited(
                energy_amount / VOLTS_PER_USDC,
            ),
            devolt_escrow: self.escrow_for(seed, energy_amount, bump),
            ..*self
        }
    }

    /// Records a pending purchase of `energy_amount` and moves its price,
    /// `energy_amount / VOLTS_PER_USDC`, from the consumer into escrow. Where
    /// the payment fails nothing is written.
    pub fn buy_energy(&mut self, seed: u64, energy_amount: u64, bumps: &BuyEnergyBumps) -> (result:
        Result<(), DeVoltError>)
        ensures
            match old(self).fault(energy_amount) {
                Some(error) => {
                    &&& result == Err::<(), DeVoltError>(error)
                    &&& *final(self) == *old(self)
                },
                None => {
                    &&& result is Ok
                    &&& *final(self) == old(self).opened(seed, energy_amount, bumps.devolt_escrow)
                },
            },
    {
        let usdc_amount: u64 = calculate_usdc_amount(&energy_amount);
        let mut consumer_usdc = self.consumer_usdc_account;
        let mut held = self.devolt_escrow_usdc_account;
        match transfer_checked(&mut consumer_usdc, &mut held, usdc_amount) {
            Ok(_) => {},
            Err(error) => {
                return Err(error);
            },
        }
        self.devolt_escrow = DeVoltEscrow {
            seed,
            bump: bumps.devolt_escrow,
            maker: self.consumer,
            devolt: self.devolt,
            maker_usdc_account: self.consumer_usdc_account.key,
            devolt_usdc_account: self.devolt_escrow_usdc_account.key,
            devolt_volt_account: self.devolt_volt_account.key,
            usdc_mint: self.usdc_mint.key,
            volt_mint: self.volt_mint.key,
            volts: energy_amount,
            usdc: usdc_amount,
            transaction: TransactionType::Buy,
            state: EscrowState::Pending,
        };
        self.consumer_usdc_account = consumer_usdc;
        self.devolt_escrow_usdc_account = held;
        Ok(())
    }
}

} // verus!
