//! Message digests and their hexadecimal text.

use vstd::prelude::*;
use sha1::Digest;
use crate::text::{is_lower_hex_digit, lower_hex, lower_hex_shape, str_eq};

verus! {

/// The MD5 digest of `data`.
pub uninterp spec fn md5_digest(data: Seq<u8>) -> Seq<u8>;

/// The SHA-1 digest of `data`.
pub uninterp spec fn sha1_digest(data: Seq<u8>) -> Seq<u8>;

/// `md5::compute`: the 16-byte MD5 digest of `data`. Trusted: the result is
/// the named digest of the bytes handed over, and has 16 bytes (`md5::Digest`
/// wraps a `[u8; 16]`).
#[verifier::external_body]
pub(crate) fn md5_compute(data: &[u8]) -> (res: Vec<u8>)
    ensures
        res@ == md5_digest(data@),
        res@.len() == 16,
{
    md5::compute(data).0.to_vec()
}

/// `sha1::Sha1` (`new`, `update`, `finalize`): the 20-byte SHA-1 digest of
/// `data`. Trusted: the result is the named digest of the bytes handed over,
/// and has 20 bytes (the output size of `Sha1`).
#[verifier::external_body]
pub(crate) fn sha1_compute(data: &[u8]) -> (res: Vec<u8>)
    ensures
        res@ == sha1_digest(data@),
        res@.len() == 20,
{
    let mut hasher = sha1::Sha1::new();
    hasher.update(data);
    hasher.finalize().to_vec()
}

/// `hex::encode`: each byte as two lower-case hexadecimal digits. Trusted:
/// the crate documents and implements exactly this encoding.
#[verifier::external_body]
pub(crate) fn hex_encode(data: &[u8]) -> (res: String)
    ensures
        res@ == lower_hex(data@),
{
    hex::encode(data)
}

/// Whether `digest`, written in lower-case hexadecimal, is `expected`.
pub fn digest_matches(digest: &[u8], expected: &str) -> (res: bool)
    ensures
        res == (lower_hex(digest@) == expected@),
{
    let text = hex_encode(digest);
    str_eq(text.as_str(), expected)
}

/// Whether the SHA-1 digest of `data`, in lower-case hexadecimal, is
/// `expected`.
pub fn verify_sha1(data: &[u8], expected: &str) -> (res: bool)
    ensures
        res == (lower_hex(sha1_digest(data@)) == expected@),
{
    let digest = sha1_compute(data);
    digest_matches(digest.as_slice(), expected)
}

/// Digests are compared in lower case: an expected digest with an
/// upper-case hexadecimal letter never matches.
pub proof fn uppercase_digest_never_matches(digest: Seq<u8>, expected: Seq<char>, i: int)
    requires
        0 <= i < expected.len(),
        'A' <= expected[i] <= 'F',
    ensures
        lower_hex(digest) != expected,
{
    lower_hex_shape(digest);
    if lower_hex(digest) == expected {
        assert(is_lower_hex_digit(lower_hex(digest)[i]));
    }
}

} // verus!
