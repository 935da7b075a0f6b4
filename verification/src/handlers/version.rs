//! Telling which version runs.

use vstd::prelude::*;

verus! {

pub struct VersionHandler;

/// The version of the service.
#[derive(Debug, Clone, Copy, PartialEq, Eq)]
pub struct VersionResponse {
    pub version: &'static str,
}

/// The version this library was released as.
pub open spec fn released_version() -> Seq<char> {
    "0.1.0"@
}

impl VersionHandler {
    pub fn get() -> (response: VersionResponse)
        ensures
            response.version@ == released_version(),
    {
        VersionResponse { version: "0.1.0" }
    }
}

} // verus!
