//! Goals as clients see and send them.

use crate::database::models::achievement::GoalCreate;
use vstd::prelude::*;
use vstd::std_specs::convert::FromSpecImpl;

verus! {

/// A goal of an achievement.
#[derive(Debug, Clone, PartialEq, Eq)]
pub struct GoalPayload {
    pub id: i32,
    pub description: String,
    pub sequence: i32,
}

/// A goal of an achievement that a client wants to create.
#[derive(Debug, Clone, PartialEq, Eq)]
pub struct GoalCreatePayload {
    pub description: String,
    pub sequence: u32,
}

impl From<GoalCreatePayload> for GoalCreate {
    fn from(value: GoalCreatePayload) -> (goal: GoalCreate) {
        GoalCreate { description: value.description, sequence: value.sequence }
    }
}

impl FromSpecImpl<GoalCreatePayload> for GoalCreate {
    open spec fn obeys_from_spec() -> bool {
        true
    }

    open spec fn from_spec(value: GoalCreatePayload) -> GoalCreate {
        GoalCreate { description: value.description, sequence: value.sequence }
    }
}

} // verus!
