//! What the service takes from and hands to its clients, and the rules a
//! payload has to meet before it is stored.

pub mod achievement;
pub mod goal;
pub mod service;
pub mod user;
