//! The service's error surface and its mapping to HTTP responses.

use vstd::prelude::*;
use vstd::string::StringExecFns;

verus! {

/// Every failure a request can end in, as seen by a client.
#[derive(Debug)]
pub enum ServiceError {
    /// Catch-all for unexpected store or processing failures.
    InternalServerError,
    /// Input-validation failure, with a message for the client.
    BadRequest(String),
    /// The key set could not be fetched, or the token was structurally
    /// malformed so that no key id could be read from it.
    JWKSFetchError,
    /// The store holds no matching row.
    NotFound,
}

/// An HTTP response as far as this library models one: a status code and a
/// plain-text body.
pub struct ErrorResponse {
    pub status: u16,
    pub body: String,
}

impl ServiceError {
    /// Maps each error to its fixed HTTP status and body.
    pub fn error_response(&self) -> (r: ErrorResponse)
        ensures
            self is InternalServerError ==> r.status == 500
                && r.body@ == "Internal Server Error, Please try later"@,
            self matches ServiceError::BadRequest(m) ==> r.status == 400 && r.body@ == m@,
            self is JWKSFetchError ==> r.status == 500 && r.body@ == "Could not fetch JWKS"@,
            self is NotFound ==> r.status == 404 && r.body@ == "Not Found"@,
    {
        match self {
            ServiceError::InternalServerError => ErrorResponse {
                status: 500,
                body: String::from_str("Internal Server Error, Please try later"),
            },
            ServiceError::BadRequest(message) => ErrorResponse {
                status: 400,
                body: message.clone(),
            },
            ServiceError::JWKSFetchError => ErrorResponse {
                status: 500,
                body: String::from_str("Could not fetch JWKS"),
            },
            ServiceError::NotFound => ErrorResponse {
                status: 404,
                body: String::from_str("Not Found"),
            },
        }
    }
}

} // verus!
