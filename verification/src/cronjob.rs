//! The reconciliation engine: which settlements a poll gives rise to, and
//! when the next poll is due.

pub mod history;
pub mod runner;
