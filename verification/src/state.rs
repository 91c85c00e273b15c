//! Escrow records as the ledger stores them.

use vstd::prelude::*;

verus! {

/// The address of an account on the ledger.
#[derive(Clone, Copy, Debug, PartialEq, Eq)]
pub struct Pubkey {
    pub bytes: [u8; 32],
}

impl View for Pubkey {
    type V = Seq<u8>;

    open spec fn view(&self) -> Seq<u8> {
        self.bytes@
    }
}

/// Where an escrow stands. `Pending` is the only state a settlement acts on;
/// `Confirmed` and `Refunded` are terminal.
#[derive(Clone, Copy, Debug, PartialEq, Eq, Structural)]
pub enum EscrowState {
    Pending,
    Confirmed,
    Refunded,
}

/// Which side of the trade the maker took.
#[derive(Clone, Copy, Debug, PartialEq, Eq, Structural)]
pub enum TransactionType {
    Buy,
    Sell,
}

impl EscrowState {
    /// A terminal state is never left again.
    pub open spec fn is_terminal(self) -> bool {
        self != EscrowState::Pending
    }

    /// The one-way order of states: a record stays where it is, or leaves
    /// `Pending` for a terminal state.
    pub open spec fn may_become(self, next: EscrowState) -> bool {
        self == next || self == EscrowState::Pending
    }

    /// The state after the ledger carried out a settlement attempt: a pending
    /// escrow is confirmed where the operator had the means and refunded
    /// where not; a settled escrow stays as it is.
    pub open spec fn after_attempt(self, liquid: bool) -> EscrowState {
        if self != EscrowState::Pending {
            self
        } else if liquid {
            EscrowState::Confirmed
        } else {
            EscrowState::Refunded
        }
    }

    pub fn is_pending(&self) -> (pending: bool)
        ensures
            pending == (*self == EscrowState::Pending),
    {
        match self {
            EscrowState::Pending => true,
            _ => false,
        }
    }
}

/// One trade awaiting settlement, or settled.
///
/// `volts` is the amount of energy token and `usdc` the amount of quote
/// currency that the trade moves, both in the unit in which the ledger keeps
/// balances.
#[derive(Clone, Copy, Debug, PartialEq, Eq)]
pub struct DeVoltEscrow {
    pub seed: u64,
    pub bump: u8,
    pub maker: Pubkey,
    pub devolt: Pubkey,
    pub maker_usdc_account: Pubkey,
    pub devolt_usdc_account: Pubkey,
    pub devolt_volt_account: Pubkey,
    pub usdc_mint: Pubkey,
    pub volt_mint: Pubkey,
    pub volts: u64,
    pub usdc: u64,
    pub transaction: TransactionType,
    pub state: EscrowState,
}

impl DeVoltEscrow {
    /// Bytes that one record takes on the ledger: an 8-byte tag, the seed and
    /// the bump, seven addresses, the two amounts, and one byte each for the
    /// kind and the state.
    pub const INIT_SPACE: usize = 8 + 8 + 1 + 32 + 32 + 32 + 32 + 32 + 32 + 32 + 8 + 8 + 1 + 1;

    /// This record with another state and everything else as it is.
    pub open spec fn with_state(self, state: EscrowState) -> DeVoltEscrow {
        DeVoltEscrow { state, ..self }
    }
}

/// Units of energy token that one unit of quote currency buys.
pub const VOLTS_PER_USDC: u64 = 100;

/// The energy that a sale of `usdc_amount` is worth.
pub fn calculate_volt_tokens(usdc_amount: &u64) -> (volts: u64)
    requires
        *usdc_amount * VOLTS_PER_USDC <= u64::MAX,
    ensures
        volts == *usdc_amount * VOLTS_PER_USDC,
{
    *usdc_amount * VOLTS_PER_USDC
}

/// The price of `volt_tokens` units of energy, rounded down.
pub fn calculate_usdc_amount(volt_tokens: &u64) -> (usdc: u64)
    ensures
        usdc == *volt_tokens / VOLTS_PER_USDC,
{
    *volt_tokens / VOLTS_PER_USDC
}

/// The price of what an amount is worth in energy is that amount again; and
/// what a price is worth in energy is no more than the energy it was the
/// price of, and less than one unit of quote currency short of it.
pub proof fn lemma_worth_and_price(usdc_amount: u64, volt_tokens: u64)
    ensures
        (usdc_amount * VOLTS_PER_USDC) / (VOLTS_PER_USDC as int) == usdc_amount,
        volt_tokens - VOLTS_PER_USDC < (volt_tokens / VOLTS_PER_USDC) * VOLTS_PER_USDC
            <= volt_tokens,
{
}

/// What a ledger operation reports when it does not simply succeed.
#[derive(Clone, Copy, Debug, PartialEq, Eq, Structural)]
pub enum DeVoltError {
    /// The escrow is not pending. Nothing was changed.
    InvalidState,
    /// An account holds less than the operation takes from it. Nothing was
    /// changed.
    InsufficientFunds,
    /// The operator lacked the liquidity to settle: the escrow is now
    /// `Refunded`, and that change stands.
    Refunded,
    /// An account cannot hold what the operation would give it. Nothing was
    /// changed.
    Overflow,
}

impl DeVoltError {
    pub open spec fn text(self) -> Seq<char> {
        match self {
            DeVoltError::InvalidState => "Invalid state"@,
            DeVoltError::InsufficientFunds => "Insufficient funds"@,
            DeVoltError::Refunded => "Transaction refunded"@,
            DeVoltError::Overflow => "Operation overflowed"@,
        }
    }

    /// The message that goes with the error.
    pub fn message(&self) -> (message: String)
        ensures
            message@ == self.text(),
    {
        match self {
            DeVoltError::InvalidState => "Invalid state".to_owned(),
            DeVoltError::InsufficientFunds => "Insufficient funds".to_owned(),
            DeVoltError::Refunded => "Transaction refunded".to_owned(),
            DeVoltError::Overflow => "Operation overflowed".to_owned(),
        }
    }
}

} // verus!
