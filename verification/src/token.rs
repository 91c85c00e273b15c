//! Token accounts and the three operations the ledger performs on them.
//! Each operation either takes effect as a whole or changes nothing.

use crate::state::{DeVoltError, Pubkey};
use vstd::prelude::*;

verus! {

/// A token: where it is defined and how many decimals one unit has.
#[derive(Clone, Copy, Debug, PartialEq, Eq)]
pub struct Mint {
    pub key: Pubkey,
    pub decimals: u8,
}

/// A balance of one token.
#[derive(Clone, Copy, Debug, PartialEq, Eq)]
pub struct TokenAccount {
    pub key: Pubkey,
    pub amount: u64,
}

impl TokenAccount {
    /// This account holding `amount`.
    pub open spec fn holding(self, amount: int) -> TokenAccount
        recommends
            0 <= amount <= u64::MAX,
    {
        TokenAccount { amount: amount as u64, ..self }
    }

    /// This account after `amount` was added to it.
    pub open spec fn credited(self, amount: u64) -> TokenAccount {
        self.holding(self.amount + amount)
    }

    /// This account after `amount` was taken from it.
    pub open spec fn debited(self, amount: u64) -> TokenAccount {
        self.holding(self.amount - amount)
    }

    /// The account holds at least `amount`.
    pub open spec fn covers(self, amount: u64) -> bool {
        self.amount >= amount
    }

    /// The account can take `amount` more.
    pub open spec fn has_room(self, amount: u64) -> bool {
        self.amount + amount <= u64::MAX
    }
}

/// Why moving `amount` from one account to another fails, if it does: the
/// source is checked before the destination.
pub open spec fn transfer_fault(from: TokenAccount, to: TokenAccount, amount: u64) -> Option<
    DeVoltError,
> {
    if !from.covers(amount) {
        Some(DeVoltError::InsufficientFunds)
    } else if !to.has_room(amount) {
        Some(DeVoltError::Overflow)
    } else {
        None
    }
}

/// Moves `amount` from `from` to `to`.
pub fn transfer_checked(from: &mut TokenAccount, to: &mut TokenAccount, amount: u64) -> (result:
    Result<(), DeVoltError>)
    ensures
        match transfer_fault(*old(from), *old(to), amount) {
            Some(error) => {
                &&& result == Err::<(), DeVoltError>(error)
                &&& *final(from) == *old(from)
                &&& *final(to) == *old(to)
            },
            None => {
                &&& result is Ok
                &&& *final(from) == old(from).debited(amount)
                &&& *final(to) == old(to).credited(amount)
            },
        },
{
    if from.amount < amount {
        return Err(DeVoltError::InsufficientFunds);
    }
    if to.amount > u64::MAX - amount {
        return Err(DeVoltError::Overflow);
    }
    from.amount = from.amount - amount;
    to.amount = to.amount + amount;
    Ok(())
}

/// Creates `amount` new tokens in `to`.
pub fn mint_to(to: &mut TokenAccount, amount: u64) -> (result: Result<(), DeVoltError>)
    ensures
        if old(to).has_room(amount) {
            &&& result is Ok
            &&& *final(to) == old(to).credited(amount)
        } else {
            &&& result == Err::<(), DeVoltError>(DeVoltError::Overflow)
            &&& *final(to) == *old(to)
        },
{
    if to.amount > u64::MAX - amount {
        return Err(DeVoltError::Overflow);
    }
    to.amount = to.amount + amount;
    Ok(())
}

/// Destroys `amount` tokens of `from`.
pub fn burn(from: &mut TokenAccount, amount: u64) -> (result: Result<(), DeVoltError>)
    ensures
        if old(from).covers(amount) {
            &&& result is Ok
            &&& *final(from) == old(from).debited(amount)
        } else {
            &&& result == Err::<(), DeVoltError>(DeVoltError::InsufficientFunds)
            &&& *final(from) == *old(from)
        },
{
    if from.amount < amount {
        return Err(DeVoltError::InsufficientFunds);
    }
    from.amount = from.amount - amount;
    Ok(())
}

} // verus!
