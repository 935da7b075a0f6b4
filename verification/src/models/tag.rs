//! Tags as the session layer keeps them.

use vstd::prelude::*;

verus! {

/// A tag, with the name of the type it is of.
#[derive(Debug, Clone, PartialEq, Eq)]
pub struct Tag {
    pub id: u32,
    pub name: String,
    pub tag_type: String,
    pub description: Option<String>,
}

} // verus!
