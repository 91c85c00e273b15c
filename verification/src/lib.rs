//! Escrow settlement for two-sided energy trades: the ledger's settlement
//! rules and the engine that reconciles pending escrows with them.
//!
//! A trade is opened as an escrow on the ledger and stays `Pending` until it
//! is settled. Settlement is decided by what the operator holds at that
//! moment: with the means at hand the escrow is `Confirmed`, without them it
//! is `Refunded`. Both are final.
//!
//! The engine polls the ledger for pending escrows, starts one settlement
//! attempt for each that has none running, and waits longer between polls
//! the more of them fail in a row.
//!
//! - [`state`], [`token`], [`contexts`], [`instructions`]: escrow records,
//!   token balances, and the four operations of the ledger. Amounts are in
//!   the unit in which balances are kept.
//! - [`backoff`], [`registry`], [`cronjob`]: the delay between polls, the
//!   set of escrows in flight, and the engine that ties them together, with
//!   what holds of it over time.
//! - [`solana`], [`signature`]: the requests to the settlement service, the
//!   meaning of its answers, and the references of transactions.
//! - [`handlers`], [`middleware`], [`models`], [`db`], [`text`]: what the
//!   HTTP service around the engine decides: answers, passwords and tokens,
//!   settings.
//!
//! Nothing here sleeps, sends or stores: the caller does, and reports back.

pub mod backoff;
pub mod contexts;
pub mod cronjob;
pub mod db;
pub mod handlers;
pub mod instructions;
pub mod middleware;
pub mod models;
pub mod registry;
pub mod signature;
pub mod solana;
pub mod state;
pub mod text;
pub mod token;
