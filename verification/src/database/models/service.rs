//! Services that hand out achievements.

use vstd::prelude::*;

verus! {

/// A service, with the key it authenticates with.
#[derive(Debug, Clone, PartialEq, Eq)]
pub struct Service {
    pub id: u32,
    pub name: String,
    pub api_key: String,
}

/// A service to be stored.
#[derive(Debug, Clone, PartialEq, Eq)]
pub struct ServiceCreatePayload {
    pub name: String,
}

/// A change to a stored service.
#[derive(Debug, Clone, PartialEq, Eq)]
pub struct ServicePatchPayload {
    pub name: String,
}

} // verus!
