//! SSH certificate material, the mapping of an SSH issuance response to an
//! outcome, and the validity window read from the issued OpenSSH certificate,
//! from which the next fetch is scheduled.

use crate::client::{is_success_status, spec_classify_failure, classify_failure};
use crate::errors::{CertificateParseError, ErrorResponse, FetchError};
use crate::scheduler::{renew_delay_secs_unsigned, renewal_delay};
use vstd::prelude::*;

verus! {

/// Signature algorithm of the issued SSH key pair.
#[derive(Debug, Clone, PartialEq, Eq, Structural)]
pub enum SshKeyAlg {
    RsaSha256,
    RsaSha512,
    EcdsaP256,
    EcdsaP384,
    Ed25519,
}

/// Whether the certificate identifies a host or a user. The type decides
/// which side effects installation may perform: host material never touches
/// known-hosts, user material never touches system SSH daemon files.
#[derive(Debug, Clone, PartialEq, Eq, Structural)]
pub enum SshCertType {
    Host,
    User,
}

/// The issued key pair: private key, public OpenSSH certificate (which embeds
/// its own validity window), algorithm, and the certificate type tag.
#[derive(Debug, Clone)]
pub struct SshKeyPairOpenssh {
    pub id: String,
    pub id_pub: String,
    pub alg: SshKeyAlg,
    pub typ: Option<SshCertType>,
}

/// A successful SSH issuance: the user-CA public key (trust anchor) and the
/// host/user key pair.
#[derive(Debug, Clone)]
pub struct SshCertificateResponse {
    pub user_ca_pub: String,
    pub host_key_pair: SshKeyPairOpenssh,
}

/// Decide the outcome of an SSH fetch. `body` is the decoded success body if
/// the response was a success and decoded; `error_body` is the decoded error
/// body if the response was a failure and decoded.
pub fn classify_ssh_fetch(
    status: u16,
    body: Option<SshCertificateResponse>,
    error_body: Option<ErrorResponse>,
) -> (r: Result<SshCertificateResponse, FetchError>)
    ensures
        is_success_status(status) && body is Some ==> r == Result::<SshCertificateResponse,
            FetchError>::Ok(body->Some_0),
        is_success_status(status) && body is None ==> r == Result::<SshCertificateResponse,
            FetchError>::Err(FetchError::Deserialization),
        !is_success_status(status) ==> r == Result::<SshCertificateResponse, FetchError>::Err(
            spec_classify_failure(status, error_body),
        ),
{
    if 200 <= status && status < 300 {
        match body {
            Some(material) => Ok(material),
            None => Err(FetchError::Deserialization),
        }
    } else {
        Err(classify_failure(status, error_body))
    }
}

/// The validity window `(valid_after, valid_before)`, in Unix seconds, that
/// an OpenSSH-encoded certificate embeds, or nothing if the text is not a
/// well-formed OpenSSH certificate. The window is a function of the
/// certificate text alone.
pub uninterp spec fn openssh_cert_validity(cert: Seq<char>) -> Option<(u64, u64)>;

/// Relies on ssh_key::Certificate::from_openssh to parse an OpenSSH
/// certificate, and on its valid_after/valid_before accessors for the
/// embedded validity window (Unix seconds).
#[verifier::external_body]
fn parse_openssh_validity(cert: &str) -> (r: Option<(u64, u64)>)
    ensures
        r == openssh_cert_validity(cert@),
{
    match ssh_key::Certificate::from_openssh(cert) {
        Ok(parsed) => Some((parsed.valid_after(), parsed.valid_before())),
        Err(_) => None,
    }
}

/// The expiry (`valid_before`, Unix seconds) embedded in an OpenSSH
/// certificate, or a parse error for text that is not one.
pub fn ssh_cert_expiry(cert: &str) -> (r: Result<u64, CertificateParseError>)
    ensures
        r is Ok <==> openssh_cert_validity(cert@) is Some,
        r is Ok ==> r->Ok_0 == openssh_cert_validity(cert@)->Some_0.1,
{
    match parse_openssh_validity(cert) {
        Some(window) => Ok(window.1),
        None => Err(CertificateParseError),
    }
}

/// The delay before the next SSH fetch: 90% of the remaining lifetime of the
/// issued certificate at `now`, or a parse error if the certificate text is
/// malformed. Unlike X509, the authority sends no explicit renewal hint for
/// SSH, so the window embedded in the certificate is authoritative.
pub fn ssh_next_fetch_delay(material: &SshCertificateResponse, now: u64) -> (r: Result<
    u64,
    CertificateParseError,
>)
    ensures
        r is Ok <==> openssh_cert_validity(material.host_key_pair.id_pub@) is Some,
        r is Ok ==> r->Ok_0 == renewal_delay(
            openssh_cert_validity(material.host_key_pair.id_pub@)->Some_0.1 as int,
            now as int,
        ),
{
    match ssh_cert_expiry(material.host_key_pair.id_pub.as_str()) {
        Ok(valid_before) => Ok(renew_delay_secs_unsigned(valid_before, now)),
        Err(e) => Err(e),
    }
}

} // verus!
