//! The identity records the directory stores.

use vstd::prelude::*;

verus! {

/// The closed set of roles a user can hold.
#[derive(Clone, Copy, Debug, PartialEq, Eq, Structural)]
pub enum Role {
    Standard,
    Admin,
}

/// A stored identity record. The password digest is always the output
/// of the credential hasher, never caller-supplied text.
pub struct User {
    pub id: u64,
    pub name: String,
    pub email: String,
    pub password_hash: String,
    pub role: Role,
    pub verified: bool,
    pub created_at: u64,
    pub updated_at: u64,
}

} // verus!
