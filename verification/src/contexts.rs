//! The ledger's operations on escrows, each with the accounts it touches.

pub mod buy_energy;
pub mod confirm_buying;
pub mod confirm_selling;
pub mod sell_energy;
