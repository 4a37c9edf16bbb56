use nioca_client::client::classify_failure;
use nioca_client::errors::{ErrorResponse, ErrorResponseType, FetchError};
use nioca_client::ssh::{
    classify_ssh_fetch, SshCertType, SshCertificateResponse, SshKeyAlg, SshKeyPairOpenssh,
};
use nioca_client::x509::{classify_x509_fetch, CertX509Response, X509CertFormat};

fn sample_x509(not_after: i64) -> CertX509Response {
    CertX509Response {
        cert: String::from("leaf"),
        cert_fingerprint: String::from("fp"),
        cert_chain: String::from("chain"),
        key: String::from("secret"),
        cert_format: X509CertFormat::Pem,
        not_after,
    }
}

fn sample_ssh(typ: Option<SshCertType>) -> SshCertificateResponse {
    SshCertificateResponse {
        user_ca_pub: String::from("ssh-ed25519 AAAA ca"),
        host_key_pair: SshKeyPairOpenssh {
            id: String::from("private"),
            id_pub: String::from("certificate"),
            alg: SshKeyAlg::Ed25519,
            typ,
        },
    }
}

#[test]
fn sealed_service_is_distinguished() {
    // HTTP 405 signals the sealed authority, never a generic error.
    let e = classify_failure(405, None);
    assert!(matches!(e, FetchError::ServiceSealed));
    let body = ErrorResponse {
        typ: ErrorResponseType::Internal,
        message: String::from("boom"),
    };
    let e = classify_failure(405, Some(body));
    assert!(matches!(e, FetchError::ServiceSealed));
}

#[test]
fn structured_error_body_is_reported() {
    let body = ErrorResponse {
        typ: ErrorResponseType::Unauthorized,
        message: String::from("bad key"),
    };
    let e = classify_failure(401, Some(body));
    match e {
        FetchError::Remote(r) => {
            assert_eq!(r.typ, ErrorResponseType::Unauthorized);
            assert_eq!(r.message, "bad key");
        },
        other => panic!("unexpected: {:?}", other),
    }
}

#[test]
fn undecodable_error_body_is_deserialization() {
    let e = classify_failure(500, None);
    assert!(matches!(e, FetchError::Deserialization));
}

#[test]
fn successful_x509_fetch_computes_renew_delay() {
    let now = 1_700_000_000;
    let material = sample_x509(now + 1000);
    let r = classify_x509_fetch(200, Some(material), None, now);
    let (material, delay) = r.unwrap();
    assert_eq!(delay, 900);
    assert_eq!(material.cert, "leaf");
    assert_eq!(material.key, "secret");
    assert_eq!(material.cert_format, X509CertFormat::Pem);
}

#[test]
fn successful_x509_fetch_with_expired_material_retries_at_once() {
    let now = 1_700_000_000;
    let material = sample_x509(now - 5);
    let (_, delay) = classify_x509_fetch(201, Some(material), None, now).unwrap();
    assert_eq!(delay, 0);
}

#[test]
fn undecodable_x509_success_body_is_deserialization() {
    let r = classify_x509_fetch(200, None, None, 0);
    assert!(matches!(r, Err(FetchError::Deserialization)));
}

#[test]
fn x509_failure_status_maps_like_any_failure() {
    let r = classify_x509_fetch(405, None, None, 0);
    assert!(matches!(r, Err(FetchError::ServiceSealed)));
    let body = ErrorResponse {
        typ: ErrorResponseType::Connection,
        message: String::from("db down"),
    };
    let r = classify_x509_fetch(503, None, Some(body), 0);
    assert!(matches!(r, Err(FetchError::Remote(_))));
}

#[test]
fn successful_ssh_fetch_returns_material() {
    let material = sample_ssh(Some(SshCertType::Host));
    let r = classify_ssh_fetch(200, Some(material), None).unwrap();
    assert_eq!(r.host_key_pair.typ, Some(SshCertType::Host));
    assert_eq!(r.host_key_pair.alg, SshKeyAlg::Ed25519);
}

#[test]
fn ssh_failure_statuses_are_classified() {
    let r = classify_ssh_fetch(405, None, None);
    assert!(matches!(r, Err(FetchError::ServiceSealed)));
    let r = classify_ssh_fetch(200, None, None);
    assert!(matches!(r, Err(FetchError::Deserialization)));
    let body = ErrorResponse {
        typ: ErrorResponseType::NotFound,
        message: String::from("no such client"),
    };
    let r = classify_ssh_fetch(404, None, Some(body));
    match r {
        Err(FetchError::Remote(b)) => assert_eq!(b.message, "no such client"),
        other => panic!("unexpected: {:?}", other),
    }
}
