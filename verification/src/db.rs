//! What the service is started with.

pub mod state;
