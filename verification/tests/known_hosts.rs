use nioca_client::known_hosts::{install_known_host_content, known_hosts_entry, known_hosts_merge};
use nioca_client::ssh::{SshCertType, SshCertificateResponse, SshKeyAlg, SshKeyPairOpenssh};

fn ssh_material(typ: Option<SshCertType>, anchor: &str) -> SshCertificateResponse {
    SshCertificateResponse {
        user_ca_pub: String::from(anchor),
        host_key_pair: SshKeyPairOpenssh {
            id: String::from("private"),
            id_pub: String::from("certificate"),
            alg: SshKeyAlg::Ed25519,
            typ,
        },
    }
}

#[test]
fn entry_has_marker_shape() {
    assert_eq!(
        known_hosts_entry("ssh-ed25519 AAAA"),
        "@cert-authority * ssh-ed25519 AAAA nioca-ssh-ca"
    );
}

#[test]
fn merge_appends_entry_to_foreign_lines() {
    let existing = "github.com ssh-rsa AAAB\nexample.org ssh-ed25519 AAAC\n";
    let entry = known_hosts_entry("ssh-ed25519 KEY1");
    let merged = known_hosts_merge(existing, &entry);
    assert_eq!(
        merged,
        "github.com ssh-rsa AAAB\nexample.org ssh-ed25519 AAAC\n\
         @cert-authority * ssh-ed25519 KEY1 nioca-ssh-ca\n"
    );
}

#[test]
fn merge_is_idempotent_byte_for_byte() {
    // Applying the same material twice yields byte-identical content.
    let existing = "github.com ssh-rsa AAAB";
    let entry = known_hosts_entry("ssh-ed25519 KEY1");
    let once = known_hosts_merge(existing, &entry);
    let twice = known_hosts_merge(&once, &entry);
    assert_eq!(once, twice);
    let thrice = known_hosts_merge(&twice, &entry);
    assert_eq!(once, thrice);
}

#[test]
fn merge_replaces_stale_anchor_instead_of_appending() {
    // A changed trust anchor replaces the prior anchor's line.
    let entry_old = known_hosts_entry("ssh-ed25519 OLDKEY");
    let entry_new = known_hosts_entry("ssh-ed25519 NEWKEY");
    let stored = known_hosts_merge("github.com ssh-rsa AAAB\n", &entry_old);
    let updated = known_hosts_merge(&stored, &entry_new);
    assert_eq!(
        updated,
        "github.com ssh-rsa AAAB\n@cert-authority * ssh-ed25519 NEWKEY nioca-ssh-ca\n"
    );
    assert!(!updated.contains("OLDKEY"));
}

#[test]
fn merge_into_empty_store() {
    let entry = known_hosts_entry("ssh-ed25519 KEY1");
    let merged = known_hosts_merge("", &entry);
    assert_eq!(merged, "@cert-authority * ssh-ed25519 KEY1 nioca-ssh-ca\n");
}

#[test]
fn host_certificate_never_touches_known_hosts() {
    let material = ssh_material(Some(SshCertType::Host), "ssh-ed25519 KEY1");
    assert!(install_known_host_content(&material, "").is_none());
}

#[test]
fn user_certificate_updates_known_hosts() {
    let material = ssh_material(Some(SshCertType::User), "ssh-ed25519 KEY1");
    let content = install_known_host_content(&material, "host1 ssh-rsa AAAB\n").unwrap();
    assert_eq!(
        content,
        "host1 ssh-rsa AAAB\n@cert-authority * ssh-ed25519 KEY1 nioca-ssh-ca\n"
    );
}

#[test]
fn untyped_certificate_updates_known_hosts() {
    let material = ssh_material(None, "ssh-ed25519 KEY1");
    assert!(install_known_host_content(&material, "").is_some());
}
