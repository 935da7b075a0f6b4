//! Reading and changing users.

use crate::error::AppError;
use crate::handlers::session::AuthenticatedUser;
use vstd::prelude::*;

verus! {

pub struct UserHandler;

impl UserHandler {
    /// Lets a user change a profile only if it is their own.
    pub fn patch(user_id: u32, authenticated_user: &AuthenticatedUser) -> (result: Result<
        (),
        AppError,
    >)
        ensures
            result == if user_id == authenticated_user.id {
                Ok::<(), AppError>(())
            } else {
                Err::<(), AppError>(AppError::Forbidden)
            },
    {
        if user_id != authenticated_user.id {
            return Err(AppError::Forbidden);
        }
        Ok(())
    }
}

} // verus!
