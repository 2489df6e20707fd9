use vstd::prelude::*;

pub mod domain;
pub mod routes;
pub mod services;
pub mod utils;

pub use domain::AuthAPIError;

verus! {

/// Error payload handed to the transport layer for serialization into a
/// wire response.
pub struct ErrorResponse {
    pub error: String,
}

} // verus!
