//! The user a session belongs to.

use crate::error::AppError;
use crate::handlers::auth::ZauthUser;
use crate::text::same_text;
use vstd::prelude::*;
use vstd::std_specs::convert::FromSpecImpl;

verus! {

/// The user who is logged in.
#[derive(Debug, Clone, PartialEq, Eq)]
pub struct AuthenticatedUser {
    pub id: u32,
    pub username: String,
    pub admin: bool,
}

/// Whether a role makes its bearer an administrator.
pub open spec fn is_admin_role(role: Seq<char>) -> bool {
    role == "bestuur"@ || role == "zpi_admin"@
}

/// Whether one of the roles makes its bearer an administrator.
pub open spec fn has_admin_role(roles: Seq<String>) -> bool {
    exists|i: int| 0 <= i < roles.len() && is_admin_role(#[trigger] roles[i]@)
}

/// The logged-in user that an account of the identity provider becomes.
pub open spec fn authenticated(user: ZauthUser) -> AuthenticatedUser {
    AuthenticatedUser { id: user.id, username: user.username, admin: has_admin_role(user.roles@) }
}

/// Whether one of the roles makes its bearer an administrator.
pub fn is_admin(roles: &Vec<String>) -> (admin: bool)
    ensures
        admin == has_admin_role(roles@),
{
    let mut i: usize = 0;
    while i < roles.len()
        invariant
            i <= roles.len(),
            forall|k: int| 0 <= k < i ==> !is_admin_role(#[trigger] roles[k]@),
        decreases roles.len() - i,
    {
        if same_text(roles[i].as_str(), "bestuur") || same_text(roles[i].as_str(), "zpi_admin") {
            return true;
        }
        i = i + 1;
    }
    false
}

impl From<ZauthUser> for AuthenticatedUser {
    fn from(user: ZauthUser) -> (authenticated: AuthenticatedUser) {
        let admin = is_admin(&user.roles);
        AuthenticatedUser { id: user.id, username: user.username, admin }
    }
}

impl FromSpecImpl<ZauthUser> for AuthenticatedUser {
    open spec fn obeys_from_spec() -> bool {
        true
    }

    open spec fn from_spec(user: ZauthUser) -> AuthenticatedUser {
        authenticated(user)
    }
}

impl AuthenticatedUser {
    /// The user of a session: the one stored in it, and the refusal of a
    /// session that stores none.
    pub fn from_session(stored: Option<AuthenticatedUser>) -> (result: Result<
        AuthenticatedUser,
        AppError,
    >)
        ensures
            result == match stored {
                Some(user) => Ok::<AuthenticatedUser, AppError>(user),
                None => Err::<AuthenticatedUser, AppError>(AppError::NotLoggedIn),
            },
    {
        match stored {
            Some(user) => Ok(user),
            None => Err(AppError::NotLoggedIn),
        }
    }
}

} // verus!
