//! Requests that a service makes with its key.

use crate::error::AppError;
use vstd::prelude::*;
use vstd::string::*;

verus! {

/// The key a request shows.
#[derive(Debug, Clone, PartialEq, Eq)]
pub struct ApiKey(pub String);

/// What a request without a bearer token is told.
pub open spec fn missing_key() -> Seq<char> {
    "Missing api key"@
}

/// The key of a request that may carry a bearer token. A request without
/// one is a bad request; whether a key is the right one is decided where the
/// key is used.
pub open spec fn bearer_key(token: Option<String>, result: Result<ApiKey, AppError>) -> bool {
    match token {
        Some(token) => result == Ok::<ApiKey, AppError>(ApiKey(token)),
        None => result matches Err(AppError::PayloadError(message)) && message@ == missing_key(),
    }
}

impl ApiKey {
    /// The key of a request: the bearer token it carries, and the refusal of
    /// a request that carries none.
    pub fn from_bearer(token: Option<String>) -> (result: Result<ApiKey, AppError>)
        ensures
            bearer_key(token, result),
            token is None ==> result is Err && crate::error::error_status(result->Err_0)
                == crate::error::BAD_REQUEST,
    {
        match token {
            Some(token) => Ok(ApiKey(token)),
            None => Err(AppError::PayloadError(String::from_str("Missing api key"))),
        }
    }
}

} // verus!
