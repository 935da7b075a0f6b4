//! Users.

use vstd::prelude::*;

verus! {

/// A user as stored.
#[derive(Debug, Clone, PartialEq, Eq)]
pub struct User {
    pub id: u32,
    pub username: String,
    pub about: String,
}

/// A user to be stored on first login.
#[derive(Debug, Clone, PartialEq, Eq)]
pub struct UserCreate {
    pub id: u32,
    pub username: String,
}

/// A change to a stored user.
#[derive(Debug, Clone, PartialEq, Eq)]
pub struct UserPatch {
    pub about: String,
}

} // verus!
