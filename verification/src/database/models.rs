//! The rows of each table, and the values a row is created or changed from.

pub mod achievement;
pub mod service;
pub mod tag;
pub mod user;
