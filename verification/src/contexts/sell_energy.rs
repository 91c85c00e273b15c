//! Opening a sale: the producer offers energy for a price.

use crate::state::{
    calculate_volt_tokens, DeVoltError, DeVoltEscrow, EscrowState, Pubkey, TransactionType,
    VOLTS_PER_USDC,
};
use crate::token::{Mint, TokenAccount};
use vstd::prelude::*;

verus! {

/// The accounts that opening a sale touches. `devolt_escrow` is the record
/// that the operation writes.
#[derive(Clone, Copy, Debug, PartialEq, Eq)]
pub struct SellEnergy {
    pub devolt: Pubkey,
    pub producer: Pubkey,
    pub usdc_mint: Mint,
    pub volt_mint: Mint,
    pub producer_usdc_account: TokenAccount,
    pub devolt_usdc_account: TokenAccount,
    pub devolt_volt_account: TokenAccount,
    pub devolt_escrow: DeVoltEscrow,
}

/// The bump of each address that the operation derives.
#[derive(Clone, Copy, Debug, PartialEq, Eq)]
pub struct SellEnergyBumps {
    pub devolt_escrow: u8,
}

impl SellEnergy {
    /// The record of a sale of energy for `usdc_amount`, with the energy
    /// given as `volts`.
    pub open spec fn escrow_for(&self, seed: u64, usdc_amount: u64, volts: u64, bump: u8)
        -> DeVoltEscrow {
        DeVoltEscrow {
            seed,
            bump,
            maker: self.producer,
            devolt: self.devolt,
            maker_usdc_account: self.producer_usdc_account.key,
            devolt_usdc_account: self.devolt_usdc_account.key,
            devolt_volt_account: self.devolt_volt_account.key,
            usdc_mint: self.usdc_mint.key,
            volt_mint: self.volt_mint.key,
            volts,
            usdc: usdc_amount,
            transaction: TransactionType::Sell,
            state: EscrowState::Pending,
        }
    }

    /// Whether the energy that `usdc_amount` is worth can be written down.
    pub open spec fn representable(usdc_amount: u64) -> bool {
        usdc_amount * VOLTS_PER_USDC <= u64::MAX
    }

    /// The accounts after a sale for `usdc_amount` was opened: the record is
    /// written, and nothing else changes.
    pub open spec fn opened(&self, seed: u64, usdc_amount: u64, bump: u8) -> SellEnergy {
        SellEnergy {
            devolt_escrow: self.escrow_for(
                seed,
                usdc_amount,
                (usdc_amount * VOLTS_PER_USDC) as u64,
                bump,
            ),
            ..*self
        }
    }

    /// Records a pending sale for `usdc_amount`; the energy it is worth is
    /// `usdc_amount * VOLTS_PER_USDC`. An amount whose worth in energy does
    /// not fit the ledger's integers is refused with `Overflow`, and nothing
    /// is written. No funds move when a sale is opened.
    pub fn sell_energy(&mut self, seed: u64, usdc_amount: u64, bumps: &SellEnergyBumps) -> (result:
        Result<(), DeVoltError>)
        ensures
            if Self::representable(usdc_amount) {
                &&& result is Ok
                &&& *final(self) == old(self).opened(seed, usdc_amount, bumps.devolt_escrow)
            } else {
                &&& result == Err::<(), DeVoltError>(DeVoltError::Overflow)
                &&& *final(self) == *old(self)
            },
    {
        if usdc_amount > u64::MAX / VOLTS_PER_USDC {
            return Err(DeVoltError::Overflow);
        }
        let volts_amount: u64 = calculate_volt_tokens(&usdc_amount);
        self.devolt_escrow = DeVoltEscrow {
            seed,
            bump: bumps.devolt_escrow,
            maker: self.producer,
            devolt: self.devolt,
            maker_usdc_account: self.producer_usdc_account.key,
            devolt_usdc_account: self.devolt_usdc_account.key,
            devolt_volt_account: self.devolt_volt_account.key,
            usdc_mint: self.usdc_mint.key,
            volt_mint: self.volt_mint.key,
            volts: volts_amount,
            usdc: usdc_amount,
            transaction: TransactionType::Sell,
            state: EscrowState::Pending,
        };
        Ok(())
    }
}

} // verus!
