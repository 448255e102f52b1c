use vstd::prelude::*;

use crate::models::{MessageResponse, StatusResponse};

verus! {

broadcast use vstd::string::group_string_axioms;

/// The HTTP status code of a successful response.
pub const STATUS_OK: u16 = 200;

/// The text of the welcome message.
pub open spec fn welcome_message() -> Seq<char> {
    "Welcome from the Rust Axum service!"@
}

/// The value of the `status` field reported by the health endpoint.
pub open spec fn health_status() -> Seq<char> {
    "ok"@
}

/// Answers the health endpoint: status 200 with `{"status":"ok"}`.
pub fn health_check() -> (r: (u16, StatusResponse))
    ensures
        r.0 == 200,
        r.1.status@ == health_status(),
{
    let response = StatusResponse { status: "ok".to_string() };
    (STATUS_OK, response)
}

/// Answers the root endpoint: status 200 with the welcome message.
pub fn welcome() -> (r: (u16, MessageResponse))
    ensures
        r.0 == 200,
        r.1.message@ == welcome_message(),
{
    let response = MessageResponse { message: "Welcome from the Rust Axum service!".to_string() };
    (STATUS_OK, response)
}

} // verus!
