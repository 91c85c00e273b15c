//! A user, as stored.

use vstd::prelude::*;

verus! {

/// One user: who they are, what their password is stored as, and the key
/// pair they trade with.
#[derive(Debug)]
pub struct User {
    pub id: String,
    pub name: String,
    pub email: String,
    pub password_hash: String,
    pub public_key: String,
    pub private_key: Vec<u8>,
}

} // verus!
