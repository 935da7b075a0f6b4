//! Achievements and the goals they are made of.

use vstd::prelude::*;

verus! {

/// One step of an achievement.
#[derive(Debug, Clone, PartialEq, Eq)]
pub struct Goal {
    pub id: u32,
    pub description: String,
    pub achievement_id: u32,
    pub sequence: u32,
}

/// Something a user can achieve in a service.
#[derive(Debug, Clone, PartialEq, Eq)]
pub struct Achievement {
    pub id: u32,
    pub name: String,
    pub service_id: u32,
}

/// One row of the join of achievements with their goals.
#[derive(Debug, Clone, PartialEq, Eq)]
pub struct AchievementGoal {
    pub achievement_id: i32,
    pub achievement_name: String,
    pub service_id: i32,
    pub goal_id: i32,
    pub goal_description: String,
    pub goal_sequence: i32,
}

/// A goal to be stored.
#[derive(Debug, Clone, PartialEq, Eq)]
pub struct GoalCreate {
    pub description: String,
    pub sequence: u32,
}

/// An achievement to be stored, with its goals in the order of their
/// sequence numbers.
#[derive(Debug, Clone, PartialEq, Eq)]
pub struct AchievementCreate {
    pub name: String,
    pub goals: Vec<GoalCreate>,
}

} // verus!
