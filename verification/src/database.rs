//! The rows the service keeps, and what is made up for a new row before it is
//! stored. Running the queries is left to the program around the library.

pub mod models;
pub mod repos;
