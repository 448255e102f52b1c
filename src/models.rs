use vstd::prelude::*;

verus! {

/// Body of the health endpoint: `{"status": ...}`.
pub struct StatusResponse {
    pub status: String,
}

/// Body of the welcome endpoint: `{"message": ...}`.
pub struct MessageResponse {
    pub message: String,
}

} // verus!
