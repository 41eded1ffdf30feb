//! The structured error payload returned by purchase-initiation and
//! confirmation operations.

use vstd::prelude::*;

verus! {

/// A request-level failure, carried as a human-readable message.
#[derive(Debug)]
pub struct ErrorResponse {
    pub message: String,
}

impl From<String> for ErrorResponse {
    fn from(message: String) -> (r: Self) {
        Self { message }
    }
}

impl vstd::std_specs::convert::FromSpecImpl<String> for ErrorResponse {
    open spec fn obeys_from_spec() -> bool {
        true
    }

    open spec fn from_spec(message: String) -> Self {
        ErrorResponse { message }
    }
}

} // verus!
