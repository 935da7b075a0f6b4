//! Listing services.

use crate::database::models::service::Service;
use crate::error::{AppError, DatabaseError};
use vstd::prelude::*;

verus! {

pub struct ServiceHandler;

impl ServiceHandler {
    /// The first of the stored services; `NotFound` where none is stored.
    pub fn get(services: Vec<Service>) -> (result: Result<Service, AppError>)
        ensures
            result == if services.len() > 0 {
                Ok::<Service, AppError>(services[0])
            } else {
                Err::<Service, AppError>(AppError::NotFound)
            },
    {
        let mut services = services;
        if services.len() > 0 {
            Ok(services.remove(0))
        } else {
            Err(AppError::from(DatabaseError::NotFound))
        }
    }
}

} // verus!
