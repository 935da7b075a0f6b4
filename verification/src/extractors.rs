//! What a request has to show before a handler sees it.

pub mod admin;
pub mod api_key;

pub use crate::handlers::session::AuthenticatedUser;
pub use admin::Admin;
