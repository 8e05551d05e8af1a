//! SHA-256 digests and their hexadecimal form.

use vstd::prelude::*;
use sha2::{Digest, Sha256};
use crate::encoding::{hex_encode, hex_lower};

verus! {

/// Number of hexadecimal digits in a SHA-256 digest written out.
pub const HEX_DIGEST_LEN: usize = 64;

/// The SHA-256 digest (FIPS 180-4) of a byte string: 32 bytes.
pub uninterp spec fn sha256(data: Seq<u8>) -> Seq<u8>;

/// `sha2`: `Sha256::digest`, the digest of the whole input in one call.
#[verifier::external_body]
pub(crate) fn sha256_digest(data: &[u8]) -> (digest: [u8; 32])
    ensures
        digest@ == sha256(data@),
{
    Sha256::digest(data).into()
}

/// The first `len` bytes of a digest, or all of it where it is shorter.
pub fn leading_bytes(digest: &[u8; 32], len: usize) -> (head: Vec<u8>)
    ensures
        head@ == digest@.take(
            if len <= 32 {
                len as int
            } else {
                32
            },
        ),
{
    let n: usize = if len <= 32 {
        len
    } else {
        32
    };
    let mut head: Vec<u8> = Vec::new();
    let mut i: usize = 0;
    while i < n
        invariant
            i <= n <= 32,
            head@ == digest@.take(i as int),
        decreases n - i,
    {
        head.push(digest[i]);
        i += 1;
    }
    head
}

/// The SHA-256 digest of `data` as 64 lower-case hexadecimal digits.
pub fn hex_digest(data: &[u8]) -> (text: String)
    ensures
        text@ == hex_lower(sha256(data@)),
        text@.len() == HEX_DIGEST_LEN,
{
    let digest = sha256_digest(data);
    hex_encode(digest.as_slice())
}

} // verus!
