use nioca_client::installer::{
    destination, host_install_plan, ssh_save_plan, systemd_service_file, x509_install_plan,
    SSHD_CONFIG_INCLUDE_LINE, SSHD_DROPIN_CONFIG,
};
use nioca_client::ssh::{SshCertType, SshCertificateResponse, SshKeyAlg, SshKeyPairOpenssh};
use nioca_client::x509::{CertX509Response, X509CertFormat};

fn x509_material(not_after: i64) -> CertX509Response {
    CertX509Response {
        cert: String::from("LEAF"),
        cert_fingerprint: String::from("fp"),
        cert_chain: String::from("CHAIN"),
        key: String::from("SECRET"),
        cert_format: X509CertFormat::Pem,
        not_after,
    }
}

fn ssh_material(typ: Option<SshCertType>) -> SshCertificateResponse {
    SshCertificateResponse {
        user_ca_pub: String::from("CAPUB"),
        host_key_pair: SshKeyPairOpenssh {
            id: String::from("HOSTKEY"),
            id_pub: String::from("HOSTCERT"),
            alg: SshKeyAlg::Ed25519,
            typ,
        },
    }
}

#[test]
fn destination_gains_exactly_one_separator() {
    assert_eq!(destination("./certs"), "./certs/");
    assert_eq!(destination("./certs/"), "./certs/");
    assert_eq!(destination(""), "/");
}

#[test]
fn x509_plan_writes_live_and_snapshot_triples_in_order() {
    let plan = x509_install_plan("./certs", &x509_material(1234567890));
    assert_eq!(plan.dirs.len(), 2);
    assert_eq!(plan.dirs[0], "./certs/x509/");
    // The snapshot directory is named after the expiry timestamp.
    assert_eq!(plan.dirs[1], "./certs/x509/1234567890/");
    assert_eq!(plan.writes.len(), 6);
    // The exact order: chain, cert, then the key last.
    assert_eq!(plan.writes[0].path, "./certs/x509/chain.pem");
    assert_eq!(plan.writes[0].contents, "CHAIN");
    assert_eq!(plan.writes[1].path, "./certs/x509/cert.pem");
    assert_eq!(plan.writes[1].contents, "LEAF");
    assert_eq!(plan.writes[2].path, "./certs/x509/key.pem");
    assert_eq!(plan.writes[2].contents, "SECRET");
    assert_eq!(plan.writes[3].path, "./certs/x509/1234567890/chain.pem");
    assert_eq!(plan.writes[4].path, "./certs/x509/1234567890/cert.pem");
    assert_eq!(plan.writes[5].path, "./certs/x509/1234567890/key.pem");
}

#[test]
fn x509_plan_protects_every_key_write() {
    // After any completed key write the file must be owner-only; nothing
    // else needs tightening.
    let plan = x509_install_plan("./certs", &x509_material(77));
    for write in &plan.writes {
        if write.path.ends_with("key.pem") {
            assert!(write.owner_only);
        } else {
            assert!(!write.owner_only);
        }
    }
}

#[test]
fn ssh_save_plan_protects_private_key() {
    let plan = ssh_save_plan("./certs", &ssh_material(Some(SshCertType::User)));
    assert_eq!(plan.dirs.len(), 1);
    assert_eq!(plan.dirs[0], "./certs/ssh/");
    assert_eq!(plan.writes.len(), 3);
    assert_eq!(plan.writes[0].path, "./certs/ssh/id_nioca");
    assert_eq!(plan.writes[0].contents, "HOSTKEY");
    assert!(plan.writes[0].owner_only);
    assert_eq!(plan.writes[1].path, "./certs/ssh/id_nioca.pub");
    assert_eq!(plan.writes[1].contents, "HOSTCERT");
    assert!(!plan.writes[1].owner_only);
    assert_eq!(plan.writes[2].path, "./certs/ssh/id_nioca_ca.pub");
    assert_eq!(plan.writes[2].contents, "CAPUB");
    assert!(!plan.writes[2].owner_only);
}

#[test]
fn user_certificate_never_touches_system_ssh_files() {
    let r = host_install_plan(&ssh_material(Some(SshCertType::User)), "");
    assert!(r.is_none());
}

#[test]
fn host_certificate_installs_privileged_files() {
    let sshd_config = "Port 22\n";
    let plan = host_install_plan(&ssh_material(Some(SshCertType::Host)), sshd_config).unwrap();
    assert!(plan.dirs.is_empty());
    assert_eq!(plan.writes.len(), 5);
    assert_eq!(plan.writes[0].path, "/etc/ssh/id_nioca_ca.pub");
    assert_eq!(plan.writes[0].contents, "CAPUB");
    assert_eq!(plan.writes[1].path, "/etc/ssh/id_nioca_host");
    assert_eq!(plan.writes[1].contents, "HOSTKEY");
    assert!(plan.writes[1].owner_only);
    assert_eq!(plan.writes[2].path, "/etc/ssh/id_nioca_host.pub");
    assert_eq!(plan.writes[2].contents, "HOSTCERT");
    assert_eq!(plan.writes[3].path, "/etc/ssh/sshd_config.d/10-nioca.conf");
    assert_eq!(plan.writes[3].contents, SSHD_DROPIN_CONFIG);
    // The include directive is appended exactly once, on its own line.
    assert_eq!(plan.writes[4].path, "/etc/ssh/sshd_config");
    assert_eq!(
        plan.writes[4].contents,
        format!("Port 22\n{}\n", SSHD_CONFIG_INCLUDE_LINE)
    );
}

#[test]
fn include_directive_is_not_duplicated() {
    let sshd_config = format!("Port 22\n{}\nPermitRootLogin no\n", SSHD_CONFIG_INCLUDE_LINE);
    let plan = host_install_plan(&ssh_material(Some(SshCertType::Host)), &sshd_config).unwrap();
    // The main configuration already includes the drop-in directory, so it is
    // not rewritten.
    assert_eq!(plan.writes.len(), 4);
}

#[test]
fn include_directive_completes_unterminated_config() {
    let plan = host_install_plan(&ssh_material(None), "Port 22").unwrap();
    assert_eq!(plan.writes.len(), 5);
    assert_eq!(
        plan.writes[4].contents,
        format!("Port 22\n{}\n", SSHD_CONFIG_INCLUDE_LINE)
    );
}

#[test]
fn dropin_references_the_installed_paths() {
    assert!(SSHD_DROPIN_CONFIG.contains("TrustedUserCAKeys /etc/ssh/id_nioca_ca.pub"));
    assert!(SSHD_DROPIN_CONFIG.contains("HostKey /etc/ssh/id_nioca_host"));
    assert!(SSHD_DROPIN_CONFIG.contains("HostCertificate /etc/ssh/id_nioca_host.pub"));
}

#[test]
fn systemd_unit_for_root() {
    let (dir, name, contents) = systemd_service_file("root");
    assert_eq!(dir, "/etc/systemd/system");
    assert_eq!(name, "nioca-client.service");
    assert!(contents.contains("User=root\n"));
    assert!(contents.contains("ExecStart=/usr/local/bin/nioca-client daemonize"));
}

#[test]
fn systemd_unit_for_other_user() {
    let (_, name, contents) = systemd_service_file("deploy");
    assert_eq!(name, "nioca-client-deploy.service");
    assert!(contents.contains("User=deploy\n"));
}
