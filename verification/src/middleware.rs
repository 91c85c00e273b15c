//! What stands between a request and its handler: who is asking.

pub mod auth;
