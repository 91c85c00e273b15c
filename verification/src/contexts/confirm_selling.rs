//! Settlement of a sale: the operator pays the producer and receives the
//! energy, or, short of funds, the sale is called off.

use crate::state::{DeVoltError, DeVoltEscrow, EscrowState, Pubkey};
use crate::token::{mint_to, transfer_checked, Mint, TokenAccount};
use vstd::prelude::*;

verus! {

/// The accounts that settling a sale touches.
#[derive(Clone, Copy, Debug, PartialEq, Eq)]
pub struct ConfirmSelling {
    pub devolt: Pubkey,
    pub usdc_mint: Mint,
    pub volt_mint: Mint,
    pub producer_usdc_account: TokenAccount,
    pub devolt_usdc_account: TokenAccount,
    pub devolt_volt_account: TokenAccount,
    pub devolt_escrow: DeVoltEscrow,
}

impl ConfirmSelling {
    /// The operator holds the price of the sale.
    pub open spec fn liquid(&self) -> bool {
        self.devolt_usdc_account.covers(self.devolt_escrow.usdc)
    }

    /// Both receiving accounts can take what a confirmation gives them.
    pub open spec fn has_room(&self) -> bool {
        &&& self.producer_usdc_account.has_room(self.devolt_escrow.usdc)
        &&& self.devolt_volt_account.has_room(self.devolt_escrow.volts)
    }

    /// What a settlement attempt reports.
    pub open spec fn outcome(&self) -> Result<(), DeVoltError> {
        if self.devolt_escrow.state != EscrowState::Pending {
            Err(DeVoltError::InvalidState)
        } else if !self.liquid() {
            Err(DeVoltError::Refunded)
        } else if !self.has_room() {
            Err(DeVoltError::Overflow)
        } else {
            Ok(())
        }
    }

    /// The accounts after a confirmation: the price went from the operator to
    /// the producer, the energy was minted to the operator.
    pub open spec fn confirmed(&self) -> ConfirmSelling {
        ConfirmSelling {
            producer_usdc_account: self.producer_usdc_account.credited(self.devolt_escrow.usdc),
            devolt_usdc_account: self.devolt_usdc_account.debited(self.devolt_escrow.usdc),
            devolt_volt_account: self.devolt_volt_account.credited(self.devolt_escrow.volts),
            devolt_escrow: self.devolt_escrow.with_state(EscrowState::Confirmed),
            ..*self
        }
    }

    /// The accounts after a refund: no funds were held for a sale, so only
    /// the state changes.
    pub open spec fn refunded(&self) -> ConfirmSelling {
        ConfirmSelling {
            devolt_escrow: self.devolt_escrow.with_state(EscrowState::Refunded),
            ..*self
        }
    }

    /// The accounts after a settlement attempt.
    pub open spec fn settled(&self) -> ConfirmSelling {
        match self.outcome() {
            Ok(_) => self.confirmed(),
            Err(DeVoltError::Refunded) => self.refunded(),
            Err(_) => *self,
        }
    }

    /// Settles the sale. With the price in the operator's account the sale is
    /// confirmed; without it the escrow becomes `Refunded`, which is reported
    /// as `Err(DeVoltError::Refunded)` and stands. Any other error leaves
    /// everything as it was.
    pub fn confirm_selling(&mut self) -> (result: Result<(), DeVoltError>)
        ensures
            result == old(self).outcome(),
            *final(self) == old(self).settled(),
    {
        if !self.devolt_escrow.state.is_pending() {
            return Err(DeVoltError::InvalidState);
        }
        if self.devolt_usdc_account.amount < self.devolt_escrow.usdc {
            return self.refund_selling();
        }
        let mut devolt_usdc = self.devolt_usdc_account;
        let mut producer_usdc = self.producer_usdc_account;
        let mut devolt_volt = self.devolt_volt_account;
        match transfer_checked(&mut devolt_usdc, &mut producer_usdc, self.devolt_escrow.usdc) {
            Ok(_) => {},
            Err(error) => {
                return Err(error);
            },
        }
        match mint_to(&mut devolt_volt, self.devolt_escrow.volts) {
            Ok(_) => {},
            Err(error) => {
                return Err(error);
            },
        }
        self.devolt_usdc_account = devolt_usdc;
        self.producer_usdc_account = producer_usdc;
        self.devolt_volt_account = devolt_volt;
        self.devolt_escrow.state = EscrowState::Confirmed;
        Ok(())
    }

    fn refund_selling(&mut self) -> (result: Result<(), DeVoltError>)
        ensures
            result == Err::<(), DeVoltError>(DeVoltError::Refunded),
            *final(self) == old(self).refunded(),
    {
        self.devolt_escrow.state = EscrowState::Refunded;
        Err(DeVoltError::Refunded)
    }
}

/// With the price in the operator's account, a pending sale is confirmed:
/// the operator pays the price to the producer and receives the energy, and
/// nothing else changes. (The two receiving accounts must be able to hold
/// what they are given.)
pub proof fn lemma_liquid_sale_is_confirmed(accounts: ConfirmSelling)
    requires
        accounts.devolt_escrow.state == EscrowState::Pending,
        accounts.liquid(),
        accounts.has_room(),
    ensures
        accounts.outcome() is Ok,
        accounts.settled().devolt_escrow == accounts.devolt_escrow.with_state(
            EscrowState::Confirmed,
        ),
        accounts.settled().devolt_usdc_account.amount == accounts.devolt_usdc_account.amount
            - accounts.devolt_escrow.usdc,
        accounts.settled().producer_usdc_account.amount == accounts.producer_usdc_account.amount
            + accounts.devolt_escrow.usdc,
        accounts.settled().devolt_volt_account.amount == accounts.devolt_volt_account.amount
            + accounts.devolt_escrow.volts,
{
}

/// Without the price in the operator's account, a pending sale is refunded:
/// the escrow becomes `Refunded` and no balance changes.
pub proof fn lemma_illiquid_sale_is_refunded(accounts: ConfirmSelling)
    requires
        accounts.devolt_escrow.state == EscrowState::Pending,
        !accounts.liquid(),
    ensures
        accounts.outcome() == Err::<(), DeVoltError>(DeVoltError::Refunded),
        accounts.settled().devolt_escrow == accounts.devolt_escrow.with_state(
            EscrowState::Refunded,
        ),
        accounts.settled().devolt_usdc_account == accounts.devolt_usdc_account,
        accounts.settled().producer_usdc_account == accounts.producer_usdc_account,
        accounts.settled().devolt_volt_account == accounts.devolt_volt_account,
{
}

/// A settlement never moves an escrow backwards, never changes what the
/// escrow is about, and keeps the sum of the quote balances.
pub proof fn lemma_sale_settlement_is_one_way(accounts: ConfirmSelling)
    ensures
        accounts.devolt_escrow.state.may_become(accounts.settled().devolt_escrow.state),
        accounts.settled().devolt_escrow == accounts.devolt_escrow.with_state(
            accounts.settled().devolt_escrow.state,
        ),
        accounts.settled().devolt_usdc_account.amount
            + accounts.settled().producer_usdc_account.amount
            == accounts.devolt_usdc_account.amount + accounts.producer_usdc_account.amount,
{
}

/// An escrow that was settled, by confirmation or by refund, is terminal: a
/// further attempt reports `InvalidState` and changes nothing.
pub proof fn lemma_settled_sale_is_final(accounts: ConfirmSelling)
    requires
        accounts.outcome() is Ok || accounts.outcome() == Err::<(), DeVoltError>(
            DeVoltError::Refunded,
        ),
    ensures
        accounts.settled().devolt_escrow.state.is_terminal(),
        accounts.settled().devolt_escrow.state == accounts.devolt_escrow.state.after_attempt(
            accounts.liquid(),
        ),
        accounts.settled().outcome() == Err::<(), DeVoltError>(DeVoltError::InvalidState),
        accounts.settled().settled() == accounts.settled(),
{
}

/// An attempt on an escrow that is not pending reports `InvalidState` and
/// changes nothing; every other error changes nothing either.
pub proof fn lemma_failed_sale_settlement_changes_nothing(accounts: ConfirmSelling)
    ensures
        accounts.devolt_escrow.state.is_terminal() <==> accounts.outcome() == Err::<
            (),
            DeVoltError,
        >(DeVoltError::InvalidState),
        accounts.outcome() is Err && accounts.outcome() != Err::<(), DeVoltError>(
            DeVoltError::Refunded,
        ) ==> accounts.settled() == accounts,
{
}

} // verus!
