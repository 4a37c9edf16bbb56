use nioca_client::fingerprint::{fingerprint, fingerprint_matches};

// SHA-256 of the empty input, a fixed well-known value.
const EMPTY_SHA256: &str = "sha256:e3b0c44298fc1c149afbf4c8996fb92427ae41e4649b934ca495991b7852b855";

#[test]
fn fingerprint_of_empty_input() {
    assert_eq!(fingerprint(b""), EMPTY_SHA256);
}

#[test]
fn fingerprint_of_known_bytes() {
    // SHA-256 of the three bytes "abc".
    assert_eq!(
        fingerprint(b"abc"),
        "sha256:ba7816bf8f01cfea414140de5dae2223b00361a396177a9cb410ff61f20015ad"
    );
}

#[test]
fn matching_fingerprint_is_accepted() {
    assert!(fingerprint_matches(b"", EMPTY_SHA256));
}

#[test]
fn mismatching_fingerprint_is_rejected() {
    assert!(!fingerprint_matches(b"x", EMPTY_SHA256));
    assert!(!fingerprint_matches(b"", "sha256:0000"));
    // The bare digest without its prefix must not match either.
    assert!(!fingerprint_matches(
        b"",
        "e3b0c44298fc1c149afbf4c8996fb92427ae41e4649b934ca495991b7852b855"
    ));
}
