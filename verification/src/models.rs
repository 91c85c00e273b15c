//! The records that are kept of users.

pub mod users;
