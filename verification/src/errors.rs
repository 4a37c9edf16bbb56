//! Error taxonomy of the client: fetch-time failures, filesystem failures,
//! certificate parse failures and startup configuration failures.

use vstd::prelude::*;

verus! {

/// Structured error kinds that the certificate authority reports in the body
/// of a non-success response.
#[derive(Debug, Clone, PartialEq, Eq, Structural)]
pub enum ErrorResponseType {
    BadRequest,
    Connection,
    Database,
    DatabaseIo,
    Forbidden,
    Internal,
    InvalidToken,
    NotFound,
    Unauthorized,
    ServiceUnavailable,
    TooManyRequests,
}

/// The structured error body `{typ, message}` of the certificate authority.
#[derive(Debug, Clone)]
pub struct ErrorResponse {
    pub typ: ErrorResponseType,
    pub message: String,
}

/// An error body whose kind is kept as free text rather than as a known kind.
#[derive(Debug, Clone)]
pub struct NiocaErrorResponse {
    pub typ: String,
    pub message: String,
}

/// Everything that can go wrong while fetching a certificate.
#[derive(Debug, Clone)]
pub enum FetchError {
    /// The request never produced an HTTP response.
    Network,
    /// HTTP 405: the authority is sealed and must be unsealed out-of-band.
    ServiceSealed,
    /// The authority reported a structured error body.
    Remote(ErrorResponse),
    /// The response body could not be decoded.
    Deserialization,
}

/// Filesystem failure kinds that installation distinguishes.
#[derive(Debug, Clone, Copy, PartialEq, Eq, Structural)]
pub enum FsErrorKind {
    PermissionDenied,
    NotFound,
    Other,
}

/// A failed installation step, carrying the filesystem failure kind.
#[derive(Debug, Clone, Copy, PartialEq, Eq, Structural)]
pub struct InstallError {
    pub kind: FsErrorKind,
}

/// A malformed OpenSSH certificate.
#[derive(Debug, Clone, Copy, PartialEq, Eq, Structural)]
pub struct CertificateParseError;

/// The two certificate protocols this client serves.
#[derive(Debug, Clone, Copy, PartialEq, Eq, Structural)]
pub enum Protocol {
    X509,
    Ssh,
}

/// A protocol is usable only if both its endpoint URL and its API key are
/// present; a missing one is fatal at startup, never retried.
#[derive(Debug, Clone, Copy, PartialEq, Eq, Structural)]
pub enum ConfigurationError {
    MissingApiKey(Protocol),
    MissingUrl(Protocol),
}

} // verus!
