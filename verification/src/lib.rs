//! Profile images at a fixed set of resolutions, with cache-friendly delivery,
//! a seeded placeholder and idempotent deletion, together with the payload
//! rules of the service that owns them.
//!
//! Everything here computes on plain values: bytes, integers, strings and the
//! crate's own types. Reading files, running the resizer and speaking HTTP is
//! left to the program around the library, which performs the actions this
//! library plans and hands back what happened.

pub mod config;
pub mod database;
pub mod decimal;
pub mod dto;
pub mod error;
pub mod extractors;
pub mod format;
pub mod handlers;
pub mod image;
pub mod markup;
pub mod models;
pub mod pages;
pub mod placeholder;
pub mod text;
