use nioca_client::config::{auth_token, NiocaConfig};
use nioca_client::errors::{ConfigurationError, Protocol};
use nioca_client::text::{i64_to_dec, str_eq, u64_to_dec};

fn full_config() -> NiocaConfig {
    NiocaConfig::from_values(
        String::from("https://ca.local.dev:8443/"),
        Some(String::from("x509-client")),
        Some(String::from("x509-key")),
        Some(String::from("ssh-client")),
        Some(String::from("ssh-key")),
        None,
    )
}

#[test]
fn bearer_token_is_prefixed_api_key() {
    assert_eq!(auth_token("my-key"), "Bearer my-key");
    assert_eq!(auth_token(""), "Bearer ");
}

#[test]
fn endpoint_urls_are_derived_from_client_ids() {
    let config = full_config();
    assert_eq!(config.url, "https://ca.local.dev:8443");
    assert_eq!(
        config.url_x509.as_deref(),
        Some("https://ca.local.dev:8443/api/clients/x509/x509-client/cert")
    );
    assert_eq!(
        config.url_ssh.as_deref(),
        Some("https://ca.local.dev:8443/api/clients/ssh/ssh-client/cert")
    );
}

#[test]
fn base_url_without_trailing_slash_is_kept() {
    let config = NiocaConfig::from_values(
        String::from("https://ca.local.dev:8443"),
        None,
        None,
        None,
        None,
        None,
    );
    assert_eq!(config.url, "https://ca.local.dev:8443");
    assert!(config.url_x509.is_none());
    assert!(config.url_ssh.is_none());
}

#[test]
fn usable_protocol_yields_endpoint_and_key() {
    let config = full_config();
    let x509 = config.x509_params().unwrap();
    assert_eq!(x509.api_key, "x509-key");
    assert!(x509.url.ends_with("/api/clients/x509/x509-client/cert"));
    let ssh = config.ssh_params().unwrap();
    assert_eq!(ssh.api_key, "ssh-key");
}

#[test]
fn missing_api_key_is_startup_fatal() {
    let config = NiocaConfig::from_values(
        String::from("https://ca.local.dev:8443"),
        Some(String::from("x509-client")),
        None,
        None,
        None,
        None,
    );
    assert_eq!(
        config.x509_params().unwrap_err(),
        ConfigurationError::MissingApiKey(Protocol::X509)
    );
}

#[test]
fn missing_client_url_is_startup_fatal() {
    let config = NiocaConfig::from_values(
        String::from("https://ca.local.dev:8443"),
        None,
        Some(String::from("x509-key")),
        None,
        Some(String::from("ssh-key")),
        None,
    );
    assert_eq!(
        config.x509_params().unwrap_err(),
        ConfigurationError::MissingUrl(Protocol::X509)
    );
    assert_eq!(
        config.ssh_params().unwrap_err(),
        ConfigurationError::MissingUrl(Protocol::Ssh)
    );
}

#[test]
fn decimal_rendering() {
    assert_eq!(u64_to_dec(0), "0");
    assert_eq!(u64_to_dec(1234567890), "1234567890");
    assert_eq!(u64_to_dec(u64::MAX), "18446744073709551615");
    assert_eq!(i64_to_dec(-42), "-42");
    assert_eq!(i64_to_dec(0), "0");
    assert_eq!(i64_to_dec(i64::MIN), "-9223372036854775808");
}

#[test]
fn string_equality_is_character_exact() {
    assert!(str_eq("abc", "abc"));
    assert!(!str_eq("abc", "abd"));
    assert!(!str_eq("abc", "ab"));
    assert!(str_eq("", ""));
}
