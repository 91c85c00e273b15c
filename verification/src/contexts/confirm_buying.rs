//! Settlement of a purchase: the operator delivers the energy and receives
//! the price held in escrow, or, short of energy, the price goes back to the
//! consumer.

use super::buy_energy::BuyEnergy;
use crate::state::{DeVoltError, DeVoltEscrow, EscrowState, Pubkey, VOLTS_PER_USDC};
use crate::token::{burn, transfer_checked, transfer_fault, Mint, TokenAccount};
use vstd::prelude::*;

verus! {

/// The accounts that settling a purchase touches.
#[derive(Clone, Copy, Debug, PartialEq, Eq)]
pub struct ConfirmBuying {
    pub devolt: Pubkey,
    pub devolt_escrow: DeVoltEscrow,
    pub usdc_mint: Mint,
    pub volt_mint: Mint,
    pub consumer_usdc_account: TokenAccount,
    pub devolt_usdc_account: TokenAccount,
    pub devolt_volt_account: TokenAccount,
    pub devolt_escrow_usdc_account: TokenAccount,
}

impl ConfirmBuying {
    /// The operator holds the energy of the purchase.
    pub open spec fn liquid(&self) -> bool {
        self.devolt_volt_account.covers(self.devolt_escrow.volts)
    }

    /// The account that the held price goes to: the operator's when the
    /// purchase is confirmed, the consumer's when it is refunded.
    pub open spec fn payee(&self) -> TokenAccount {
        if self.liquid() {
            self.devolt_usdc_account
        } else {
            self.consumer_usdc_account
        }
    }

    /// What a settlement attempt reports.
    pub open spec fn outcome(&self) -> Result<(), DeVoltError> {
        if self.devolt_escrow.state != EscrowState::Pending {
            Err(DeVoltError::InvalidState)
        } else {
            match transfer_fault(
                self.devolt_escrow_usdc_account,
                self.payee(),
                self.devolt_escrow.usdc,
            ) {
                Some(error) => Err(error),
                None => if self.liquid() {
                    Ok(())
                } else {
                    Err(DeVoltError::Refunded)
                },
            }
        }
    }

    /// The accounts after a confirmation: the energy was burnt from the
    /// operator's holding, the held price went to the operator.
    pub open spec fn confirmed(&self) -> ConfirmBuying {
        ConfirmBuying {
            devolt_volt_account: self.devolt_volt_account.debited(self.devolt_escrow.volts),
            devolt_escrow_usdc_account: self.devolt_escrow_usdc_account.debited(
                self.devolt_escrow.usdc,
            ),
            devolt_usdc_account: self.devolt_usdc_account.credited(self.devolt_escrow.usdc),
            devolt_escrow: self.devolt_escrow.with_state(EscrowState::Confirmed),
            ..*self
        }
    }

    /// The accounts after a refund: the held price went back to the consumer.
    pub open spec fn refunded(&self) -> ConfirmBuying {
        ConfirmBuying {
            devolt_escrow_usdc_account: self.devolt_escrow_usdc_account.debited(
                self.devolt_escrow.usdc,
            ),
            consumer_usdc_account: self.consumer_usdc_account.credited(self.devolt_escrow.usdc),
            devolt_escrow: self.devolt_escrow.with_state(EscrowState::Refunded),
            ..*self
        }
    }

    /// The accounts after a settlement attempt.
    pub open spec fn settled(&self) -> ConfirmBuying {
        match self.outcome() {
            Ok(_) => self.confirmed(),
            Err(DeVoltError::Refunded) => self.refunded(),
            Err(_) => *self,
        }
    }

    /// Settles the purchase. With the energy in the operator's holding the
    /// purchase is confirmed; without it the held price is returned and the
    /// escrow becomes `Refunded`, which is reported as
    /// `Err(DeVoltError::Refunded)` and stands. Any other error leaves
    /// everything as it was.
    pub fn confirm_buying(&mut self) -> (result: Result<(), DeVoltError>)
        ensures
            result == old(self).outcome(),
            *final(self) == old(self).settled(),
    {
        if !self.devolt_escrow.state.is_pending() {
            return Err(DeVoltError::InvalidState);
        }
        if self.devolt_volt_account.amount < self.devolt_escrow.volts {
            return self.refund_buying();
        }
        let mut held = self.devolt_escrow_usdc_account;
        let mut devolt_usdc = self.devolt_usdc_account;
        let mut devolt_volt = self.devolt_volt_account;
        match transfer_checked(&mut held, &mut devolt_usdc, self.devolt_escrow.usdc) {
            Ok(_) => {},
            Err(error) => {
                return Err(error);
            },
        }
        match burn(&mut devolt_volt, self.devolt_escrow.volts) {
            Ok(_) => {},
            Err(error) => {
                return Err(error);
            },
        }
        self.devolt_escrow_usdc_account = held;
        self.devolt_usdc_account = devolt_usdc;
        self.devolt_volt_account = devolt_volt;
        self.devolt_escrow.state = EscrowState::Confirmed;
        Ok(())
    }

    fn refund_buying(&mut self) -> (result: Result<(), DeVoltError>)
        requires
            old(self).devolt_escrow.state == EscrowState::Pending,
            !old(self).liquid(),
        ensures
            result == old(self).outcome(),
            *final(self) == old(self).settled(),
    {
        let mut held = self.devolt_escrow_usdc_account;
        let mut consumer_usdc = self.consumer_usdc_account;
        match transfer_checked(&mut held, &mut consumer_usdc, self.devolt_escrow.usdc) {
            Ok(_) => {},
            Err(error) => {
                return Err(error);
            },
        }
        self.devolt_escrow_usdc_account = held;
        self.consumer_usdc_account = consumer_usdc;
        self.devolt_escrow.state = EscrowState::Refunded;
        Err(DeVoltError::Refunded)
    }
}

/// With the energy in the operator's holding, a pending purchase is
/// confirmed: the energy is burnt, the held price goes to the operator, and
/// nothing else changes. (The price must be held in escrow, and the
/// operator's account must be able to take it.)
pub proof fn lemma_liquid_purchase_is_confirmed(accounts: ConfirmBuying)
    requires
        accounts.devolt_escrow.state == EscrowState::Pending,
        accounts.liquid(),
        accounts.devolt_escrow_usdc_account.covers(accounts.devolt_escrow.usdc),
        accounts.devolt_usdc_account.has_room(accounts.devolt_escrow.usdc),
    ensures
        accounts.outcome() is Ok,
        accounts.settled().devolt_escrow == accounts.devolt_escrow.with_state(
            EscrowState::Confirmed,
        ),
        accounts.settled().devolt_volt_account.amount == accounts.devolt_volt_account.amount
            - accounts.devolt_escrow.volts,
        accounts.settled().devolt_escrow_usdc_account.amount
            == accounts.devolt_escrow_usdc_account.amount - accounts.devolt_escrow.usdc,
        accounts.settled().devolt_usdc_account.amount == accounts.devolt_usdc_account.amount
            + accounts.devolt_escrow.usdc,
        accounts.settled().consumer_usdc_account == accounts.consumer_usdc_account,
{
}

/// Without the energy in the operator's holding, a pending purchase is
/// refunded: the consumer gets the held price back in full, and no account of
/// the operator changes. (The price must be held in escrow, and the
/// consumer's account must be able to take it.)
pub proof fn lemma_illiquid_purchase_is_refunded(accounts: ConfirmBuying)
    requires
        accounts.devolt_escrow.state == EscrowState::Pending,
        !accounts.liquid(),
        accounts.devolt_escrow_usdc_account.covers(accounts.devolt_escrow.usdc),
        accounts.consumer_usdc_account.has_room(accounts.devolt_escrow.usdc),
    ensures
        accounts.outcome() == Err::<(), DeVoltError>(DeVoltError::Refunded),
        accounts.settled().devolt_escrow == accounts.devolt_escrow.with_state(
            EscrowState::Refunded,
        ),
        accounts.settled().consumer_usdc_account.amount == accounts.consumer_usdc_account.amount
            + accounts.devolt_escrow.usdc,
        accounts.settled().devolt_escrow_usdc_account.amount
            == accounts.devolt_escrow_usdc_account.amount - accounts.devolt_escrow.usdc,
        accounts.settled().devolt_usdc_account == accounts.devolt_usdc_account,
        accounts.settled().devolt_volt_account == accounts.devolt_volt_account,
{
}

/// A settlement never moves an escrow backwards, never changes what the
/// escrow is about, and keeps the sum of the quote balances.
pub proof fn lemma_purchase_settlement_is_one_way(accounts: ConfirmBuying)
    ensures
        accounts.devolt_escrow.state.may_become(accounts.settled().devolt_escrow.state),
        accounts.settled().devolt_escrow == accounts.devolt_escrow.with_state(
            accounts.settled().devolt_escrow.state,
        ),
        accounts.settled().devolt_escrow_usdc_account.amount
            + accounts.settled().devolt_usdc_account.amount
            + accounts.settled().consumer_usdc_account.amount
            == accounts.devolt_escrow_usdc_account.amount + accounts.devolt_usdc_account.amount
            + accounts.consumer_usdc_account.amount,
{
}

/// An escrow that was settled, by confirmation or by refund, is terminal: a
/// further attempt reports `InvalidState` and changes nothing.
pub proof fn lemma_settled_purchase_is_final(accounts: ConfirmBuying)
    requires
        accounts.outcome() is Ok || accounts.outcome() == Err::<(), DeVoltError>(
            DeVoltError::Refunded,
        ),
    ensures
        accounts.settled().devolt_escrow.state.is_terminal(),
        accounts.settled().devolt_escrow.state == accounts.devolt_escrow.state.after_attempt(
            accounts.liquid(),
        ),
        accounts.settled().outcome() == Err::<(), DeVoltError>(DeVoltError::InvalidState),
        accounts.settled().settled() == accounts.settled(),
{
}

/// An attempt on an escrow that is not pending reports `InvalidState` and
/// changes nothing; every other error changes nothing either.
pub proof fn lemma_failed_purchase_settlement_changes_nothing(accounts: ConfirmBuying)
    ensures
        accounts.devolt_escrow.state.is_terminal() <==> accounts.outcome() == Err::<
            (),
            DeVoltError,
        >(DeVoltError::InvalidState),
        accounts.outcome() is Err && accounts.outcome() != Err::<(), DeVoltError>(
            DeVoltError::Refunded,
        ) ==> accounts.settled() == accounts,
{
}

/// The accounts with which a purchase is settled, as opening it left them.
pub open spec fn settlement_of(opened: BuyEnergy) -> ConfirmBuying {
    ConfirmBuying {
        devolt: opened.devolt,
        devolt_escrow: opened.devolt_escrow,
        usdc_mint: opened.usdc_mint,
        volt_mint: opened.volt_mint,
        consumer_usdc_account: opened.consumer_usdc_account,
        devolt_usdc_account: opened.devolt_usdc_account,
        devolt_volt_account: opened.devolt_volt_account,
        devolt_escrow_usdc_account: opened.devolt_escrow_usdc_account,
    }
}

/// A purchase that is opened and then refunded leaves every account as it
/// was before: the consumer has the price back, the escrow holds what it
/// held, and the operator was never touched.
pub proof fn lemma_refund_undoes_the_opening(
    accounts: BuyEnergy,
    seed: u64,
    energy_amount: u64,
    bump: u8,
)
    requires
        accounts.fault(energy_amount) is None,
        !accounts.devolt_volt_account.covers(energy_amount),
    ensures
        ({
            let opened = settlement_of(accounts.opened(seed, energy_amount, bump));
            let settled = opened.settled();
            &&& opened.outcome() == Err::<(), DeVoltError>(DeVoltError::Refunded)
            &&& settled.devolt_escrow.state == EscrowState::Refunded
            &&& settled.consumer_usdc_account == accounts.consumer_usdc_account
            &&& settled.devolt_escrow_usdc_account == accounts.devolt_escrow_usdc_account
            &&& settled.devolt_usdc_account == accounts.devolt_usdc_account
            &&& settled.devolt_volt_account == accounts.devolt_volt_account
        }),
{
}

/// A purchase that is opened and then confirmed moves the price from the
/// consumer to the operator and takes the energy out of the operator's
/// holding; the escrow holds what it held before. (The operator's account
/// must be able to take the price.)
pub proof fn lemma_confirmation_completes_the_opening(
    accounts: BuyEnergy,
    seed: u64,
    energy_amount: u64,
    bump: u8,
)
    requires
        accounts.fault(energy_amount) is None,
        accounts.devolt_volt_account.covers(energy_amount),
        accounts.devolt_usdc_account.has_room((energy_amount / VOLTS_PER_USDC) as u64),
    ensures
        ({
            let price = energy_amount / VOLTS_PER_USDC;
            let opened = settlement_of(accounts.opened(seed, energy_amount, bump));
            let settled = opened.settled();
            &&& opened.outcome() is Ok
            &&& settled.devolt_escrow.state == EscrowState::Confirmed
            &&& settled.consumer_usdc_account.amount == accounts.consumer_usdc_account.amount
                - price
            &&& settled.devolt_usdc_account.amount == accounts.devolt_usdc_account.amount + price
            &&& settled.devolt_volt_account.amount == accounts.devolt_volt_account.amount
                - energy_amount
            &&& settled.devolt_escrow_usdc_account == accounts.devolt_escrow_usdc_account
        }),
{
}

} // verus!
