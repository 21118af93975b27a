//! The manifest digest: the image identity recorded beside a manifest.
//!
//! The digest is computed over the exact raw bytes that were fetched,
//! before any parsing, so it stays a valid integrity witness even when
//! parsing later fails.

use vstd::prelude::*;

use crate::errors::ImportError;
use crate::manifest::SHA256_PREFIX;
use crate::util::{ascii_bytes, chars_of_bytes, push_all, string_from_ascii};

verus! {

/// The SHA-256 digest of a byte sequence.  The digest function itself is
/// carried out by an outside library; the name stands for its result,
/// which depends on the input bytes alone.
pub uninterp spec fn sha256_of(data: Seq<u8>) -> Seq<u8>;

/// The lowercase hex digit spelling the value `n`, for `n < 16`.
pub open spec fn spec_hex_digit(n: u8) -> u8 {
    if n < 10 {
        (48 + n) as u8
    } else {
        (87 + n) as u8
    }
}

/// The lowercase hex spelling of a byte sequence: two digits per byte,
/// most significant digit first.
pub open spec fn spec_hex_bytes(s: Seq<u8>) -> Seq<u8> {
    Seq::new(
        2 * s.len(),
        |i: int|
            if i % 2 == 0 {
                spec_hex_digit(s[i / 2] / 16)
            } else {
                spec_hex_digit(s[i / 2] % 16)
            },
    )
}

/// The recorded identity of a manifest fetched as `raw`: the ASCII bytes
/// of `sha256:` followed by the lowercase hex SHA-256 digest of `raw`.
pub open spec fn spec_digest_bytes(raw: Seq<u8>) -> Seq<u8> {
    SHA256_PREFIX@ + spec_hex_bytes(sha256_of(raw))
}

/// Relies on openssl's `hash` with the SHA-256 message digest: the digest
/// depends on the input bytes alone and is 32 bytes long.
#[verifier::external_body]
fn sha256(data: &[u8]) -> (r: Option<Vec<u8>>)
    ensures
        r is Some ==> r.unwrap()@ == sha256_of(data@),
        r is Some ==> r.unwrap()@.len() == 32,
{
    match openssl::hash::hash(openssl::hash::MessageDigest::sha256(), data) {
        Ok(d) => Some(d.to_vec()),
        Err(_) => None,
    }
}

/// Relies on `hex::encode`: each input byte becomes two lowercase hex
/// digits, most significant digit first.
#[verifier::external_body]
fn hex_bytes(data: &[u8]) -> (r: Vec<u8>)
    ensures
        r@ == spec_hex_bytes(data@),
{
    hex::encode(data).into_bytes()
}

/// Computes the manifest digest string over the exact raw manifest bytes.
/// On success the result spells `sha256:` followed by the lowercase hex
/// SHA-256 digest of `raw`; it depends on nothing but those bytes.
pub fn manifest_digest(raw: &[u8]) -> (r: Result<String, ImportError>)
    ensures
        r is Ok ==> r.unwrap()@ == chars_of_bytes(spec_digest_bytes(raw@)),
        r is Err ==> r == Result::<String, ImportError>::Err(ImportError::DigestFailed),
{
    match sha256(raw) {
        None => Err(ImportError::DigestFailed),
        Some(h) => {
            let mut v: Vec<u8> = Vec::new();
            push_all(&mut v, SHA256_PREFIX.as_slice());
            let hx = hex_bytes(h.as_slice());
            push_all(&mut v, hx.as_slice());
            proof {
                assert(v@ == spec_digest_bytes(raw@));
                assert forall|i: int| 0 <= i < v@.len() implies v@[i] < 128 by {
                    if i >= 7 {
                        assert(v@[i] == spec_hex_bytes(sha256_of(raw@))[i - 7]);
                    }
                }
            }
            Ok(string_from_ascii(v))
        },
    }
}

} // verus!
