//! What each request is answered with, decided from what the request holds
//! and from what the program around the library found on disk, in the
//! session or in the database.

pub mod achievement;
pub mod auth;
pub mod image;
pub mod service;
pub mod services;
pub mod session;
pub mod user;
pub mod version;

pub use session::AuthenticatedUser;
