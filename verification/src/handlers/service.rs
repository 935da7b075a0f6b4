//! Managing services, and unlocking goals on their behalf.

use crate::error::AppError;
use crate::text::same_text;
use vstd::prelude::*;

verus! {

pub struct ServiceHandler;

impl ServiceHandler {
    /// Lets a service unlock a goal only if it shows its own key.
    pub fn unlock_goal(api_key: &str, expected_api_key: &str) -> (result: Result<(), AppError>)
        ensures
            result == if api_key@ == expected_api_key@ {
                Ok::<(), AppError>(())
            } else {
                Err::<(), AppError>(AppError::BadApiKey)
            },
    {
        if same_text(api_key, expected_api_key) {
            Ok(())
        } else {
            Err(AppError::BadApiKey)
        }
    }
}

} // verus!
