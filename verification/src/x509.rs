//! X509 certificate material and the mapping of an X509 issuance response to
//! an outcome, including the renewal hint computed from the expiry.

use crate::client::{is_success_status, spec_classify_failure, classify_failure};
use crate::errors::{ErrorResponse, FetchError};
use crate::scheduler::{renew_delay_secs, renewal_delay};
use vstd::prelude::*;

verus! {

/// Encoding of the issued X509 material.
#[derive(Debug, Clone, PartialEq, Eq, Structural)]
pub enum X509CertFormat {
    Pem,
    Der,
    Pkcs12,
}

/// Freshly issued X509 material: the leaf certificate, its chain, the private
/// key, the encoding, the SHA-256 fingerprint, and the absolute expiry as a
/// Unix timestamp in seconds, UTC. Created on every successful fetch and
/// never mutated afterwards.
#[derive(Debug, Clone)]
pub struct CertX509Response {
    pub cert: String,
    pub cert_fingerprint: String,
    pub cert_chain: String,
    pub key: String,
    pub cert_format: X509CertFormat,
    pub not_after: i64,
}

/// Decide the outcome of an X509 fetch. `body` is the decoded success body if
/// the response was a success and decoded; `error_body` is the decoded error
/// body if the response was a failure and decoded. On success the renewal
/// delay is 90% of the certificate's remaining lifetime at `now`.
pub fn classify_x509_fetch(
    status: u16,
    body: Option<CertX509Response>,
    error_body: Option<ErrorResponse>,
    now: i64,
) -> (r: Result<(CertX509Response, u64), FetchError>)
    ensures
        is_success_status(status) && body is Some ==> r is Ok && r->Ok_0.0 == body->Some_0
            && r->Ok_0.1 == renewal_delay(body->Some_0.not_after as int, now as int),
        is_success_status(status) && body is None ==> r == Result::<(CertX509Response, u64),
            FetchError>::Err(FetchError::Deserialization),
        !is_success_status(status) ==> r == Result::<(CertX509Response, u64), FetchError>::Err(
            spec_classify_failure(status, error_body),
        ),
{
    if 200 <= status && status < 300 {
        match body {
            Some(material) => {
                let delay = renew_delay_secs(material.not_after, now);
                Ok((material, delay))
            },
            None => Err(FetchError::Deserialization),
        }
    } else {
        Err(classify_failure(status, error_body))
    }
}

} // verus!
