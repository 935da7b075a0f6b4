//! Requests that only an administrator may make.

use crate::error::AppError;
use crate::handlers::session::AuthenticatedUser;
use vstd::prelude::*;

verus! {

/// A logged-in user who is an administrator.
#[derive(Debug, Clone, PartialEq, Eq)]
pub struct Admin(pub AuthenticatedUser);

impl Admin {
    /// Lets a user through as an administrator only if they are one.
    pub fn from_user(user: AuthenticatedUser) -> (result: Result<Admin, AppError>)
        ensures
            result == if user.admin {
                Ok::<Admin, AppError>(Admin(user))
            } else {
                Err::<Admin, AppError>(AppError::Forbidden)
            },
    {
        if user.admin {
            Ok(Admin(user))
        } else {
            Err(AppError::Forbidden)
        }
    }
}

} // verus!
