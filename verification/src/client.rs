//! Classification of the certificate authority's HTTP responses, shared by
//! both protocols. The caller performs the request and hands in the status
//! code and the decoded bodies; the mapping to an outcome is decided here.

use crate::errors::{ErrorResponse, FetchError};
use vstd::prelude::*;

verus! {

/// The status the authority answers with while it is sealed.
pub const STATUS_SEALED: u16 = 405;

/// An HTTP status that reports success.
pub open spec fn is_success_status(status: u16) -> bool {
    200 <= status < 300
}

/// The failure that a non-success response maps to: 405 is the sealed
/// service, any other status is the structured error body if one could be
/// decoded, and a decode failure otherwise.
pub open spec fn spec_classify_failure(status: u16, error_body: Option<ErrorResponse>)
    -> FetchError {
    if status == STATUS_SEALED {
        FetchError::ServiceSealed
    } else {
        match error_body {
            Some(body) => FetchError::Remote(body),
            None => FetchError::Deserialization,
        }
    }
}

/// Map a non-success response to its failure. `error_body` is the structured
/// error body if the response carried one that decoded.
pub fn classify_failure(status: u16, error_body: Option<ErrorResponse>) -> (e: FetchError)
    requires
        !is_success_status(status),
    ensures
        e == spec_classify_failure(status, error_body),
{
    if status == STATUS_SEALED {
        FetchError::ServiceSealed
    } else {
        match error_body {
            Some(body) => FetchError::Remote(body),
            None => FetchError::Deserialization,
        }
    }
}

} // verus!
