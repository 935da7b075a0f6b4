//! Users and tags as the session layer keeps them.

pub mod tag;
pub mod user;
