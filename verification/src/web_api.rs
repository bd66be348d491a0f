//! The query handler of the web API: it asks the greeting service to greet
//! the full name and passes the greeting on.

use vstd::prelude::*;
use crate::grpc::{SayRequest, SayResponse};
use crate::handlers::{full_name, join_names};

verus! {

/// A query to the web API.
pub struct WebRequest {
    pub first_name: String,
    pub last_name: String,
    pub ip_address: Option<String>,
}

/// The answer of the web API.
pub struct WebResponse {
    pub message: String,
}

/// The request to the greeting service for a query: the full name.
pub fn say_request(request: &WebRequest) -> (res: SayRequest)
    ensures
        res.name@ == full_name(request.first_name@, request.last_name@),
        res.name@ == request.first_name@ + " "@ + request.last_name@,
{
    SayRequest { name: join_names(request.first_name.as_str(), request.last_name.as_str()) }
}

/// The answer to a query, from the greeting service's reply: its message, or
/// "failed" when the call failed.
pub fn query(reply: Option<SayResponse>) -> (res: WebResponse)
    ensures
        match reply {
            Some(r) => res.message@ == r.message@,
            None => res.message@ == "failed"@,
        },
{
    match reply {
        Some(r) => WebResponse { message: r.message },
        None => WebResponse { message: String::from_str("failed") },
    }
}

} // verus!
