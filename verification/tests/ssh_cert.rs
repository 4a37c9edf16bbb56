use nioca_client::ssh::{
    ssh_cert_expiry, ssh_next_fetch_delay, SshCertType, SshCertificateResponse, SshKeyAlg,
    SshKeyPairOpenssh,
};

// An OpenSSH-encoded Ed25519 host certificate (a published test vector of the
// OpenSSH certificate format), used to exercise real certificate parsing.
const ED25519_CERT: &str = "ssh-ed25519-cert-v01@openssh.com AAAAIHNzaC1lZDI1NTE5LWNlcnQtdjAxQG9wZW5zc2guY29tAAAAIAYkJPGaYen7NK8MwZwWmNAyRaFNsc86AU9NObU2cM2uAAAAILM+rvN+ot98qgEN796jTiQfZfG1KaT0PtFDJ/XFSqtiAAAAAAAAAAAAAAACAAAAB2VkMjU1MTkAAAAUAAAAEGhvc3QuZXhhbXBsZS5jb20AAAAAYkx3NwAAAAB8DuY3AAAAAAAAAAAAAAAAAAAAMwAAAAtzc2gtZWQyNTUxOQAAACCzPq7zfqLffKoBDe/eo04kH2XxtSmk9D7RQyf1xUqrYgAAAFMAAAALc3NoLWVkMjU1MTkAAABApVXBNiYPlPoa1BYH5G4NP9XtjTMZlm7HO5GdbLSvvAw5Vdob7Ka+23hB7isJKHYtzFGGSKXAqxp/Zi8REbCaAw== user@example.com";

fn material_with_cert(cert: &str) -> SshCertificateResponse {
    SshCertificateResponse {
        user_ca_pub: String::from("ssh-ed25519 AAAA ca"),
        host_key_pair: SshKeyPairOpenssh {
            id: String::from("private"),
            id_pub: String::from(cert),
            alg: SshKeyAlg::Ed25519,
            typ: Some(SshCertType::Host),
        },
    }
}

#[test]
fn expiry_is_read_from_the_certificate() {
    let valid_before = ssh_cert_expiry(ED25519_CERT).unwrap();
    // The certificate is valid at 1750000000 and expired by 2500000000, so
    // its embedded expiry lies strictly between the two.
    assert!(valid_before > 1_750_000_000);
    assert!(valid_before < 2_500_000_000);
}

#[test]
fn malformed_certificate_is_a_parse_error() {
    assert!(ssh_cert_expiry("not a certificate").is_err());
    assert!(ssh_cert_expiry("").is_err());
    // A plain public key is not a certificate either.
    assert!(ssh_cert_expiry("ssh-ed25519 AAAAC3NzaC1lZDI1NTE5AAAAIL= x").is_err());
}

#[test]
fn next_fetch_delay_is_ninety_percent_of_remaining_window() {
    let material = material_with_cert(ED25519_CERT);
    let valid_before = ssh_cert_expiry(ED25519_CERT).unwrap();
    // Pretend the clock stands 1000 seconds before the expiry.
    let delay = ssh_next_fetch_delay(&material, valid_before - 1000).unwrap();
    assert_eq!(delay, 900);
    // At or past the expiry the next fetch is immediate.
    let delay = ssh_next_fetch_delay(&material, valid_before).unwrap();
    assert_eq!(delay, 0);
}

#[test]
fn next_fetch_delay_fails_on_malformed_certificate() {
    let material = material_with_cert("garbage");
    assert!(ssh_next_fetch_delay(&material, 0).is_err());
}
