//! What a repository works out itself before it turns to the database.

pub mod service;
