//! Users as clients see and send them, and the two ways a client can name a
//! user: by number or by name.

use crate::database::models::tag::Tag;
use crate::database::models::user::{User, UserPatch};
use crate::text::{parse_u32, parsed_u32};
use vstd::prelude::*;
use vstd::std_specs::convert::FromSpecImpl;

verus! {

/// A change that a user wants to make to their profile.
#[derive(Debug, Clone, PartialEq, Eq)]
pub struct UserPatchPayload {
    pub about: String,
}

/// A user together with the tags they carry.
#[derive(Debug, Clone, PartialEq, Eq)]
pub struct UserProfile {
    pub id: u32,
    pub username: String,
    pub about: String,
    pub tags: Vec<Tag>,
}

/// How a client names a user.
#[derive(Debug, Clone, PartialEq, Eq)]
pub enum UserId {
    Username(String),
    Id(u32),
}

/// What a text names: the user with that number where the text is a number,
/// the user with that name otherwise.
pub open spec fn named_by(value: String) -> UserId {
    match parsed_u32(value@) {
        Some(id) => UserId::Id(id),
        None => UserId::Username(value),
    }
}

impl From<UserPatchPayload> for UserPatch {
    fn from(value: UserPatchPayload) -> (patch: UserPatch) {
        UserPatch { about: value.about }
    }
}

impl FromSpecImpl<UserPatchPayload> for UserPatch {
    open spec fn obeys_from_spec() -> bool {
        true
    }

    open spec fn from_spec(value: UserPatchPayload) -> UserPatch {
        UserPatch { about: value.about }
    }
}

impl From<String> for UserId {
    fn from(value: String) -> (id: UserId) {
        match parse_u32(value.as_str()) {
            Some(id) => UserId::Id(id),
            None => UserId::Username(value),
        }
    }
}

impl FromSpecImpl<String> for UserId {
    open spec fn obeys_from_spec() -> bool {
        true
    }

    open spec fn from_spec(value: String) -> UserId {
        named_by(value)
    }
}

impl From<u32> for UserId {
    fn from(value: u32) -> (id: UserId) {
        UserId::Id(value)
    }
}

impl FromSpecImpl<u32> for UserId {
    open spec fn obeys_from_spec() -> bool {
        true
    }

    open spec fn from_spec(value: u32) -> UserId {
        UserId::Id(value)
    }
}

impl UserProfile {
    /// The profile of a user who carries the given tags.
    pub fn get(user: User, tags: Vec<Tag>) -> (profile: UserProfile)
        ensures
            profile == (UserProfile { id: user.id, username: user.username, about: user.about, tags }),
    {
        UserProfile { id: user.id, username: user.username, about: user.about, tags }
    }
}

} // verus!
