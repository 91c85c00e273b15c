//! The ledger's four operations as they are called: each with the accounts
//! it was handed.

use crate::contexts::buy_energy::{BuyEnergy, BuyEnergyBumps};
use crate::contexts::confirm_buying::ConfirmBuying;
use crate::contexts::confirm_selling::ConfirmSelling;
use crate::contexts::sell_energy::{SellEnergy, SellEnergyBumps};
use crate::state::DeVoltError;
use vstd::prelude::*;

verus! {

/// What an operation is handed: the accounts it works on, and the bumps of
/// the addresses that were derived for it.
#[derive(Debug)]
pub struct Context<Accounts, Bumps> {
    pub accounts: Accounts,
    pub bumps: Bumps,
}

/// Opens a sale of energy for `usdc_amount`.
pub fn sell_energy(
    ctx: &mut Context<SellEnergy, SellEnergyBumps>,
    seed: u64,
    usdc_amount: u64,
) -> (result: Result<(), DeVoltError>)
    ensures
        final(ctx).bumps == old(ctx).bumps,
        if SellEnergy::representable(usdc_amount) {
            &&& result is Ok
            &&& final(ctx).accounts == old(ctx).accounts.opened(
                seed,
                usdc_amount,
                old(ctx).bumps.devolt_escrow,
            )
        } else {
            &&& result == Err::<(), DeVoltError>(DeVoltError::Overflow)
            &&& final(ctx).accounts == old(ctx).accounts
        },
{
    let bumps = ctx.bumps;
    ctx.accounts.sell_energy(seed, usdc_amount, &bumps)
}

/// Settles a sale.
pub fn confirm_selling(ctx: &mut Context<ConfirmSelling, ()>) -> (result: Result<(), DeVoltError>)
    ensures
        result == old(ctx).accounts.outcome(),
        final(ctx).accounts == old(ctx).accounts.settled(),
{
    ctx.accounts.confirm_selling()
}

/// Opens a purchase of `energy_amount` units of energy.
pub fn buy_energy(
    ctx: &mut Context<BuyEnergy, BuyEnergyBumps>,
    seed: u64,
    energy_amount: u64,
) -> (result: Result<(), DeVoltError>)
    ensures
        final(ctx).bumps == old(ctx).bumps,
        match old(ctx).accounts.fault(energy_amount) {
            Some(error) => {
                &&& result == Err::<(), DeVoltError>(error)
                &&& final(ctx).accounts == old(ctx).accounts
            },
            None => {
                &&& result is Ok
                &&& final(ctx).accounts == old(ctx).accounts.opened(
                    seed,
                    energy_amount,
                    old(ctx).bumps.devolt_escrow,
                )
            },
        },
{
    let bumps = ctx.bumps;
    ctx.accounts.buy_energy(seed, energy_amount, &bumps)
}

/// Settles a purchase.
pub fn confirm_buying(ctx: &mut Context<ConfirmBuying, ()>) -> (result: Result<(), DeVoltError>)
    ensures
        result == old(ctx).accounts.outcome(),
        final(ctx).accounts == old(ctx).accounts.settled(),
{
    ctx.accounts.confirm_buying()
}

} // verus!
