//! Tags that users carry.

use vstd::prelude::*;

verus! {

/// A tag, with the name of the category it belongs to.
#[derive(Debug, Clone, PartialEq, Eq)]
pub struct Tag {
    pub id: u32,
    pub name: String,
    pub category: String,
    pub description: Option<String>,
}

} // verus!
