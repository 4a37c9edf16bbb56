//! The SHA-256 fingerprint with which a fetched root certificate is verified
//! before it is trusted and stored.

use crate::text::{dec_digit, str_eq};
use vstd::prelude::*;
use vstd::string::*;

verus! {

/// The lowercase hex digit character for a value below sixteen.
pub open spec fn hex_digit(d: int) -> char {
    if d < 10 {
        dec_digit(d)
    } else if d == 10 {
        'a'
    } else if d == 11 {
        'b'
    } else if d == 12 {
        'c'
    } else if d == 13 {
        'd'
    } else if d == 14 {
        'e'
    } else {
        'f'
    }
}

/// Lowercase hex encoding: two digits per byte, high nibble first.
pub open spec fn spec_hex_lower(data: Seq<u8>) -> Seq<char>
    decreases data.len(),
{
    if data.len() == 0 {
        Seq::empty()
    } else {
        seq![
            hex_digit(data.first() as int / 16),
            hex_digit(data.first() as int % 16),
        ] + spec_hex_lower(data.drop_first())
    }
}

/// The SHA-256 digest of a byte sequence: 32 bytes, a function of the input
/// alone.
pub uninterp spec fn sha256_of(data: Seq<u8>) -> Seq<u8>;

/// Relies on ring::digest::digest with the SHA256 algorithm: the digest is
/// 32 bytes and depends on the input bytes alone.
#[verifier::external_body]
fn sha256_digest(data: &[u8]) -> (r: Vec<u8>)
    ensures
        r@ == sha256_of(data@),
        r@.len() == 32,
{
    ring::digest::digest(&ring::digest::SHA256, data).as_ref().to_vec()
}

/// Relies on hex::encode: two lowercase hex digits per input byte, high
/// nibble first.
#[verifier::external_body]
fn hex_encode_lower(data: &[u8]) -> (r: String)
    ensures
        r@ == spec_hex_lower(data@),
{
    hex::encode(data)
}

/// The printable fingerprint of a byte sequence: the prefix `sha256:`
/// followed by the lowercase hex digest.
pub open spec fn spec_fingerprint(data: Seq<u8>) -> Seq<char> {
    "sha256:"@ + spec_hex_lower(sha256_of(data))
}

/// Compute the printable SHA-256 fingerprint of raw certificate bytes.
pub fn fingerprint(value: &[u8]) -> (r: String)
    ensures
        r@ == spec_fingerprint(value@),
{
    let digest = sha256_digest(value);
    let hex_digits = hex_encode_lower(digest.as_slice());
    let mut s = String::from_str("sha256:");
    s.append(hex_digits.as_str());
    s
}

/// Whether the fingerprint of the fetched root certificate bytes matches the
/// fingerprint the operator expects. Only a matching root may be stored.
pub fn fingerprint_matches(value: &[u8], expected: &str) -> (r: bool)
    ensures
        r == (spec_fingerprint(value@) == expected@),
{
    let fp = fingerprint(value);
    str_eq(fp.as_str(), expected)
}

} // verus!
