//! Listing and creating the achievements of a service.

use crate::database::models::achievement::AchievementCreate;
use crate::dto::achievement::{counts_up, is_ordered, AchievementCreatePayload};
use crate::error::AppError;
use vstd::prelude::*;
use vstd::string::*;

verus! {

pub struct AchievementHandler;

impl AchievementHandler {
    /// Checks a new achievement before it is stored. One without a goal is
    /// refused here; the rest of the rules are the payload's own.
    pub fn post_for_service(achievement: AchievementCreatePayload) -> (result: Result<
        AchievementCreate,
        AppError,
    >)
        ensures
            achievement.goals.len() == 0 ==> (result matches Err(AppError::PayloadError(message))
                && message@ == "Achievement must have at least 1 goal"@),
            achievement.goals.len() > 0 && !counts_up(achievement.goals@) ==> (result matches Err(
                AppError::PayloadError(message),
            ) && message@ == "Sequence should start with 0 and count up by 1"@),
            achievement.goals.len() > 0 && counts_up(achievement.goals@) ==> (result matches Ok(
                create,
            ) && is_ordered(achievement.name, achievement.goals@, create)),
    {
        if achievement.goals.len() == 0 {
            return Err(
                AppError::PayloadError(String::from_str("Achievement must have at least 1 goal")),
            );
        }
        achievement.create()
    }
}

} // verus!
