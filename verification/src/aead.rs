//! ChaCha20-Poly1305 with empty associated data, as `ring` provides it.

use vstd::prelude::*;
use ring::aead::{Aad, LessSafeKey, Nonce, UnboundKey, CHACHA20_POLY1305};
use ring::error::Unspecified;

verus! {

/// Length of the authentication tag that sealing appends.
pub const AUTH_TAG_LEN: usize = 16;

/// The longest input that ChaCha20-Poly1305 seals or opens under one nonce:
/// 2^32 - 1 blocks of 64 bytes.
pub const MAX_INPUT_LEN: u64 = 274_877_906_880;

/// The error of `ring` that tells nothing of its cause.
#[verifier::external_type_specification]
#[verifier::external_body]
pub struct ExUnspecified(ring::error::Unspecified);

/// Ciphertext and authentication tag that ChaCha20-Poly1305 (RFC 8439) gives
/// for a plaintext under a key and a nonce, with empty associated data.
pub uninterp spec fn chacha20_poly1305_sealed(key: Seq<u8>, nonce: Seq<u8>, plaintext: Seq<u8>) -> Seq<u8>;

/// The plaintext that ChaCha20-Poly1305 releases for sealed bytes under a key
/// and a nonce, with empty associated data; `None` where it rejects them.
pub uninterp spec fn chacha20_poly1305_opened(key: Seq<u8>, nonce: Seq<u8>, sealed: Seq<u8>) -> Option<Seq<u8>>;

/// `ring::aead`: `LessSafeKey::seal_in_place_append_tag` under a
/// ChaCha20-Poly1305 key made by `UnboundKey::new`, with `Aad::empty()`.
/// The input is encrypted in place and the 16-byte tag appended; opening the
/// outcome under the same key and nonce releases the input again. A key of
/// 32 bytes is always accepted, and sealing fails only on an input longer
/// than `MAX_INPUT_LEN`, which the precondition leaves out.
#[verifier::external_body]
pub(crate) fn seal_in_place(key: &[u8; 32], nonce: &[u8; 12], data: Vec<u8>) -> (out: Vec<u8>)
    requires
        data@.len() <= MAX_INPUT_LEN,
        data@.len() + AUTH_TAG_LEN <= usize::MAX,
    ensures
        out@ == chacha20_poly1305_sealed(key@, nonce@, data@),
        out@.len() == data@.len() + AUTH_TAG_LEN,
        chacha20_poly1305_opened(key@, nonce@, out@) == Some(data@),
{
    let mut in_out = data;
    let unbound = UnboundKey::new(&CHACHA20_POLY1305, key).expect("the key has 32 bytes");
    let fresh = Nonce::assume_unique_for_key(*nonce);
    LessSafeKey::new(unbound)
        .seal_in_place_append_tag(fresh, Aad::empty(), &mut in_out)
        .expect("the input is within the length limit");
    in_out
}

/// `ring::aead`: `LessSafeKey::open_in_place` under a ChaCha20-Poly1305 key
/// made by `UnboundKey::new`, with `Aad::empty()`. It releases the plaintext,
/// 16 bytes shorter than what was sealed, or rejects the input without saying
/// why.
#[verifier::external_body]
pub(crate) fn open_in_place(key: &[u8; 32], nonce: &[u8; 12], sealed: &[u8]) -> (r: Result<
    Vec<u8>,
    Unspecified,
>)
    ensures
        match chacha20_poly1305_opened(key@, nonce@, sealed@) {
            Some(plain) => r matches Ok(out) && out@ == plain,
            None => r is Err,
        },
        r matches Ok(out) ==> out@.len() + AUTH_TAG_LEN == sealed@.len(),
{
    let opening = LessSafeKey::new(UnboundKey::new(&CHACHA20_POLY1305, key)?);
    let mut in_out = sealed.to_vec();
    let used = Nonce::assume_unique_for_key(*nonce);
    let plain = opening.open_in_place(used, Aad::empty(), &mut in_out)?;
    Ok(plain.to_vec())
}

} // verus!
