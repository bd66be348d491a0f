//! The messages of the greeting service.

use vstd::prelude::*;

verus! {

/// The request of the greeting service: whom to greet.
pub struct SayRequest {
    pub name: String,
}

/// The reply of the greeting service.
pub struct SayResponse {
    pub message: String,
}

} // verus!
