//! Users as the session layer keeps them.

use crate::handlers::auth::ZauthUser;
use crate::models::tag::Tag;
use vstd::prelude::*;
use vstd::std_specs::convert::FromSpecImpl;

verus! {

/// A user.
#[derive(Debug, Clone, PartialEq, Eq)]
pub struct User {
    pub id: u32,
    pub username: String,
    pub about: String,
}

/// A change that a user wants to make to their profile.
#[derive(Debug, Clone, PartialEq, Eq)]
pub struct UserPatchPayload {
    pub about: String,
}

/// A user together with the tags they carry.
#[derive(Debug, Clone, PartialEq, Eq)]
pub struct UserProfilePayload {
    pub id: u32,
    pub username: String,
    pub about: String,
    pub tags: Vec<Tag>,
}

/// Whether `user` is what an account of the identity provider becomes on
/// first login: same number, same name, nothing said about themselves yet.
pub open spec fn is_first_login(value: ZauthUser, user: User) -> bool {
    user.id == value.id && user.username == value.username && user.about@ == Seq::<char>::empty()
}

impl User {
    pub fn new(id: u32, username: String, about: String) -> (user: Self)
        ensures
            user == (User { id, username, about }),
    {
        User { id, username, about }
    }
}

impl User {
    /// The user that an account of the identity provider becomes on first
    /// login.
    pub fn first_login(value: ZauthUser) -> (user: User)
        ensures
            is_first_login(value, user),
    {
        User::new(value.id, value.username, String::new())
    }
}

impl From<ZauthUser> for User {
    fn from(value: ZauthUser) -> (user: User) {
        User::first_login(value)
    }
}

impl FromSpecImpl<ZauthUser> for User {
    /// The conversion makes a new, empty text, which no specification value
    /// stands for: what it gives is stated on `first_login`.
    open spec fn obeys_from_spec() -> bool {
        false
    }

    open spec fn from_spec(value: ZauthUser) -> User {
        arbitrary()
    }
}

impl UserProfilePayload {
    /// The profile of a user who carries the given tags.
    pub fn get(user: User, tags: Vec<Tag>) -> (profile: UserProfilePayload)
        ensures
            profile == (UserProfilePayload {
                id: user.id,
                username: user.username,
                about: user.about,
                tags,
            }),
    {
        UserProfilePayload { id: user.id, username: user.username, about: user.about, tags }
    }
}

} // verus!
