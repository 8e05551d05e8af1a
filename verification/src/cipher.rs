//! The cipher: sealing a payload into a frame with its metadata, and
//! unsealing a frame back into the payload.

use vstd::prelude::*;
use vstd::utf8::{decode_utf8, valid_utf8};
use crate::aead::{
    chacha20_poly1305_opened,
    chacha20_poly1305_sealed,
    open_in_place,
    seal_in_place,
    AUTH_TAG_LEN,
    MAX_INPUT_LEN,
};
use crate::clock::unix_seconds;
use crate::digest::{hex_digest, leading_bytes, sha256, sha256_digest, HEX_DIGEST_LEN};
use crate::encoding::{base64_encode, base64_standard, hex_encode, hex_lower};
use crate::entropy::random_bytes;
use crate::error::CipherError;
use crate::frame::{
    assemble,
    defect,
    framed,
    lemma_parse_assembled,
    nonce_field,
    parse,
    sealed_field,
    FrameDefect,
    NONCE_LEN,
};
use crate::mask::{lemma_mask_self_inverse, masked, qt_xor_keyed};
use crate::scheme::Scheme;

verus! {

/// Length of a secret key in bytes.
pub const KEY_LEN: usize = 32;

/// Number of key-digest bytes that a fingerprint shows.
pub const FINGERPRINT_BYTES: usize = 6;

/// What a seal reports beside the frame: when it was made, and the SHA-256
/// digest of the whole frame in lower-case hexadecimal. Unsealing never
/// looks at it; a caller who keeps it can compare the digest for itself.
#[derive(Clone, Debug)]
pub struct SealMeta {
    pub timestamp: u64,
    pub hash: String,
}

/// A 256-bit secret key together with the scheme it is used under.
pub struct ZeroshieldCipher {
    key: [u8; 32],
    scheme: Scheme,
}

/// The payload as it enters authenticated encryption, and equally the opened
/// bytes as they leave it: whitened where the scheme has the whitening layer,
/// unchanged where it has not.
pub open spec fn whitened(scheme: Scheme, data: Seq<u8>, key: Seq<u8>, nonce: Seq<u8>) -> Seq<u8> {
    if scheme.masks() {
        masked(data, key, nonce)
    } else {
        data
    }
}

/// The frame that seals `plaintext` under `key` and `nonce`.
pub open spec fn sealed_frame(scheme: Scheme, key: Seq<u8>, nonce: Seq<u8>, plaintext: Seq<u8>) -> Seq<
    u8,
> {
    framed(
        scheme,
        nonce,
        chacha20_poly1305_sealed(key, nonce, whitened(scheme, plaintext, key, nonce)),
    )
}

/// The outcome of unsealing once authenticated decryption has spoken: its
/// rejection is an authentication failure, and what it released is taken
/// back through the whitening layer.
pub open spec fn recovered(scheme: Scheme, key: Seq<u8>, nonce: Seq<u8>, opened: Option<Seq<u8>>) -> Result<
    Seq<u8>,
    CipherError,
> {
    match opened {
        None => Err(CipherError::AuthenticationFailure),
        Some(inner) => Ok(whitened(scheme, inner, key, nonce)),
    }
}

/// The outcome of unsealing `frame` under `key`: a defective frame is turned
/// away before any decryption; otherwise authenticated decryption of what
/// follows the nonce decides.
pub open spec fn unsealed(scheme: Scheme, key: Seq<u8>, frame: Seq<u8>) -> Result<Seq<u8>, CipherError> {
    match defect(scheme, frame) {
        Some(found) => Err(CipherError::MalformedFrame(found)),
        None => recovered(
            scheme,
            key,
            nonce_field(scheme, frame),
            chacha20_poly1305_opened(key, nonce_field(scheme, frame), sealed_field(scheme, frame)),
        ),
    }
}

/// The text that a payload stands for.
pub open spec fn decoded(payload: Seq<u8>) -> Result<Seq<char>, CipherError> {
    if valid_utf8(payload) {
        Ok(decode_utf8(payload))
    } else {
        Err(CipherError::TextDecodingFailure)
    }
}

/// The outcome of unsealing `frame` under `key` as text.
pub open spec fn unsealed_text(scheme: Scheme, key: Seq<u8>, frame: Seq<u8>) -> Result<
    Seq<char>,
    CipherError,
> {
    match unsealed(scheme, key, frame) {
        Err(e) => Err(e),
        Ok(payload) => decoded(payload),
    }
}

/// Length of the frame that carries a payload of `payload_len` bytes.
pub open spec fn frame_len(scheme: Scheme, payload_len: nat) -> nat {
    (scheme.tag().len() + NONCE_LEN + payload_len + AUTH_TAG_LEN) as nat
}

/// Whether a payload of `payload_len` bytes can be sealed: it is within the
/// limit of ChaCha20-Poly1305, and its frame has a length that `usize` holds.
pub open spec fn sealable(scheme: Scheme, payload_len: nat) -> bool {
    payload_len <= MAX_INPUT_LEN && frame_len(scheme, payload_len) <= usize::MAX
}

/// The fingerprint of a key: the first six bytes of its SHA-256 digest as
/// twelve lower-case hexadecimal digits.
pub open spec fn fingerprint_of(key: Seq<u8>) -> Seq<char> {
    hex_lower(sha256(key).take(FINGERPRINT_BYTES as int))
}

/// A copy of the bytes of `data`.
fn copy_of(data: &[u8]) -> (out: Vec<u8>)
    ensures
        out@ == data@,
{
    let mut out: Vec<u8> = Vec::new();
    let mut i: usize = 0;
    while i < data.len()
        invariant
            i <= data.len(),
            out@ == data@.take(i as int),
        decreases data.len() - i,
    {
        out.push(data[i]);
        i += 1;
    }
    out
}

/// Turns a payload into text where it is valid UTF-8.
pub fn decode_text(payload: &[u8]) -> (r: Result<String, CipherError>)
    ensures
        match decoded(payload@) {
            Ok(text) => r matches Ok(s) && s@ == text,
            Err(e) => r matches Err(x) && x == e,
        },
{
    match core::str::from_utf8(payload) {
        Ok(text) => {
            broadcast use vstd::utf8::encode_utf8_decode_utf8;

            Ok(text.to_owned())
        },
        Err(_) => Err(CipherError::TextDecodingFailure),
    }
}

impl Clone for ZeroshieldCipher {
    /// A further cipher with the same key and scheme.
    fn clone(&self) -> (copy: Self)
        ensures
            copy == *self,
    {
        ZeroshieldCipher { key: self.key, scheme: self.scheme }
    }
}

impl ZeroshieldCipher {
    /// The secret key as a sequence of 32 bytes.
    pub closed spec fn key_bytes(&self) -> Seq<u8> {
        self.key@
    }

    /// The scheme the cipher speaks.
    pub closed spec fn scheme(&self) -> Scheme {
        self.scheme
    }

    /// A cipher of the `Lite` scheme with a fresh random key. Fails only
    /// where the secure random source does.
    pub fn new() -> (r: Result<Self, CipherError>)
        ensures
            r matches Ok(cipher) ==> cipher.scheme() == Scheme::Lite && cipher.key_bytes().len()
                == KEY_LEN,
            r matches Err(e) ==> e == CipherError::EnvironmentFailure,
    {
        let drawn = match random_bytes::<32>() {
            Ok(key) => Some(key),
            Err(_) => None,
        };
        Self::from_drawn_key(drawn)
    }

    /// A cipher of the `Lite` scheme from what the random source gave for a
    /// key: the bytes it delivered become the key, and `None`, its failure,
    /// is an environment failure.
    pub fn from_drawn_key(drawn: Option<[u8; 32]>) -> (r: Result<Self, CipherError>)
        ensures
            match drawn {
                Some(key) => r matches Ok(cipher) && cipher.key_bytes() == key@ && cipher.scheme()
                    == Scheme::Lite,
                None => r matches Err(e) && e == CipherError::EnvironmentFailure,
            },
    {
        match drawn {
            Some(key) => Ok(Self::from_key(key)),
            None => Err(CipherError::EnvironmentFailure),
        }
    }

    /// A cipher of the `Lite` scheme with the given key.
    pub fn from_key(key: [u8; 32]) -> (cipher: Self)
        ensures
            cipher.key_bytes() == key@,
            cipher.scheme() == Scheme::Lite,
    {
        ZeroshieldCipher { key, scheme: Scheme::Lite }
    }

    /// The same key under another scheme.
    pub fn with_scheme(self, scheme: Scheme) -> (cipher: Self)
        ensures
            cipher.key_bytes() == self.key_bytes(),
            cipher.scheme() == scheme,
    {
        ZeroshieldCipher { key: self.key, scheme }
    }

    /// A short text by which a key can be told from others without showing
    /// it. It depends on the key alone.
    pub fn fingerprint(&self) -> (text: String)
        ensures
            text@ == fingerprint_of(self.key_bytes()),
            text@.len() == 2 * FINGERPRINT_BYTES,
    {
        let digest = sha256_digest(self.key.as_slice());
        let head = leading_bytes(&digest, FINGERPRINT_BYTES);
        hex_encode(head.as_slice())
    }

    /// The raw key in standard base64: 44 symbols for its 32 bytes.
    pub fn export_key_base64(&self) -> (text: String)
        ensures
            text@ == base64_standard(self.key_bytes()),
    {
        base64_encode(self.key.as_slice())
    }

    /// Whether a payload of `payload_len` bytes can be sealed.
    pub fn can_seal(&self, payload_len: usize) -> (yes: bool)
        ensures
            yes == sealable(self.scheme(), payload_len as nat),
    {
        let overhead: usize = self.scheme.format_tag().len() + NONCE_LEN + AUTH_TAG_LEN;
        payload_len as u64 <= MAX_INPUT_LEN && payload_len <= usize::MAX - overhead
    }

    /// Seals `plaintext` under the given nonce and stamps the metadata with
    /// the given time: the payload is whitened, encrypted with its
    /// authentication tag appended, and framed behind format tag and nonce.
    /// The frame unseals to `plaintext` under the same cipher.
    pub fn seal_with(&self, plaintext: &[u8], nonce: [u8; 12], timestamp: u64) -> (out: (
        Vec<u8>,
        SealMeta,
    ))
        requires
            sealable(self.scheme(), plaintext@.len()),
        ensures
            out.0@ == sealed_frame(self.scheme(), self.key_bytes(), nonce@, plaintext@),
            out.0@.len() == frame_len(self.scheme(), plaintext@.len()),
            unsealed(self.scheme(), self.key_bytes(), out.0@) == Ok::<Seq<u8>, CipherError>(
                plaintext@,
            ),
            out.1.timestamp == timestamp,
            out.1.hash@ == hex_lower(sha256(out.0@)),
            out.1.hash@.len() == HEX_DIGEST_LEN,
    {
        let inner: Vec<u8> = if self.scheme.masking() {
            qt_xor_keyed(plaintext, &self.key, &nonce)
        } else {
            copy_of(plaintext)
        };
        let sealed = seal_in_place(&self.key, &nonce, inner);
        let frame = assemble(self.scheme, &nonce, sealed.as_slice());
        proof {
            lemma_unseal_inverts_seal(self.scheme, self.key@, nonce@, plaintext@, sealed@);
        }
        let hash = hex_digest(frame.as_slice());
        (frame, SealMeta { timestamp, hash })
    }

    /// Seals `plaintext` from what the system gave for it: the nonce that the
    /// random source delivered and the reading of the clock. Where both are
    /// there the payload is sealed under exactly that nonce and stamped with
    /// exactly that reading. Where either is missing the outcome is an
    /// environment failure, and no frame is made under any other nonce.
    pub fn seal_drawn(&self, plaintext: &[u8], drawn: Option<[u8; 12]>, clock: Option<u64>) -> (r:
        Result<(Vec<u8>, SealMeta), CipherError>)
        requires
            sealable(self.scheme(), plaintext@.len()),
        ensures
            match (drawn, clock) {
                (Some(nonce), Some(timestamp)) => r matches Ok(out) && {
                    &&& out.0@ == sealed_frame(
                        self.scheme(),
                        self.key_bytes(),
                        nonce@,
                        plaintext@,
                    )
                    &&& out.0@.len() == frame_len(self.scheme(), plaintext@.len())
                    &&& unsealed(self.scheme(), self.key_bytes(), out.0@) == Ok::<
                        Seq<u8>,
                        CipherError,
                    >(plaintext@)
                    &&& out.1.timestamp == timestamp
                    &&& out.1.hash@ == hex_lower(sha256(out.0@))
                    &&& out.1.hash@.len() == HEX_DIGEST_LEN
                },
                _ => r matches Err(e) && e == CipherError::EnvironmentFailure,
            },
    {
        match (drawn, clock) {
            (Some(nonce), Some(timestamp)) => Ok(self.seal_with(plaintext, nonce, timestamp)),
            _ => Err(CipherError::EnvironmentFailure),
        }
    }

    /// Seals `plaintext` under a fresh random nonce and stamps the metadata
    /// with the present time. The frame carries the nonce it was sealed
    /// under and unseals to `plaintext` under the same cipher. Fails only
    /// where the system supplies no random bytes or no time.
    pub fn encrypt_with_meta(&self, plaintext: &[u8]) -> (r: Result<(Vec<u8>, SealMeta), CipherError>)
        requires
            sealable(self.scheme(), plaintext@.len()),
        ensures
            r matches Ok(out) ==> {
                &&& out.0@ == sealed_frame(
                    self.scheme(),
                    self.key_bytes(),
                    nonce_field(self.scheme(), out.0@),
                    plaintext@,
                )
                &&& out.0@.len() == frame_len(self.scheme(), plaintext@.len())
                &&& unsealed(self.scheme(), self.key_bytes(), out.0@) == Ok::<Seq<u8>, CipherError>(
                    plaintext@,
                )
                &&& out.1.hash@ == hex_lower(sha256(out.0@))
                &&& out.1.hash@.len() == HEX_DIGEST_LEN
            },
            r matches Err(e) ==> e == CipherError::EnvironmentFailure,
    {
        let drawn: Option<[u8; 12]> = match random_bytes::<12>() {
            Ok(bytes) => Some(bytes),
            Err(_) => None,
        };
        let clock = unix_seconds();
        let r = self.seal_drawn(plaintext, drawn, clock);
        proof {
            if let Some(nonce) = drawn {
                lemma_parse_assembled(
                    self.scheme,
                    nonce@,
                    chacha20_poly1305_sealed(
                        self.key@,
                        nonce@,
                        whitened(self.scheme, plaintext@, self.key@, nonce@),
                    ),
                );
            }
        }
        r
    }

    /// Finishes an unseal from what authenticated decryption gave for the
    /// frame's sealed bytes: `None`, its rejection, is an authentication
    /// failure; what it released is taken back through the whitening layer.
    pub fn recover(&self, nonce: &[u8; 12], opened: Option<Vec<u8>>) -> (r: Result<
        Vec<u8>,
        CipherError,
    >)
        ensures
            match opened {
                None => r matches Err(e) && e == CipherError::AuthenticationFailure,
                Some(inner) => r matches Ok(payload) && payload@ == whitened(
                    self.scheme(),
                    inner@,
                    self.key_bytes(),
                    nonce@,
                ),
            },
    {
        match opened {
            None => Err(CipherError::AuthenticationFailure),
            Some(inner) => {
                if self.scheme.masking() {
                    Ok(qt_xor_keyed(inner.as_slice(), &self.key, nonce))
                } else {
                    Ok(inner)
                }
            },
        }
    }

    /// Unseals a frame: checks its length and then its format tag, decrypts
    /// what follows the nonce with authentication, and takes the outcome back
    /// through the whitening layer. The metadata of the seal plays no part.
    pub fn decrypt(&self, ciphertext: &[u8]) -> (r: Result<Vec<u8>, CipherError>)
        ensures
            match unsealed(self.scheme(), self.key_bytes(), ciphertext@) {
                Ok(payload) => r matches Ok(bytes) && bytes@ == payload,
                Err(e) => r matches Err(x) && x == e,
            },
            r matches Ok(bytes) ==> ciphertext@.len() == frame_len(self.scheme(), bytes@.len()),
    {
        let parts = match parse(self.scheme, ciphertext) {
            Ok(parts) => parts,
            Err(found) => {
                return Err(CipherError::MalformedFrame(found));
            },
        };
        let opened = match open_in_place(&self.key, &parts.0, parts.1.as_slice()) {
            Ok(inner) => Some(inner),
            Err(_) => None,
        };
        self.recover(&parts.0, opened)
    }

    /// Unseals a frame whose payload is UTF-8 text. A payload that is
    /// authentic but no valid text is a failure of its own kind.
    pub fn decrypt_utf8(&self, ciphertext: &[u8]) -> (r: Result<String, CipherError>)
        ensures
            match unsealed_text(self.scheme(), self.key_bytes(), ciphertext@) {
                Ok(text) => r matches Ok(s) && s@ == text,
                Err(e) => r matches Err(x) && x == e,
            },
    {
        match self.decrypt(ciphertext) {
            Ok(bytes) => decode_text(bytes.as_slice()),
            Err(e) => Err(e),
        }
    }
}

/// Unsealing inverts sealing wherever authenticated decryption inverts
/// authenticated encryption: a frame that carries, under `nonce`, sealed
/// bytes which open to the whitened payload unseals to the payload itself,
/// for every key, nonce and payload, the empty one included.
pub proof fn lemma_unseal_inverts_seal(
    scheme: Scheme,
    key: Seq<u8>,
    nonce: Seq<u8>,
    payload: Seq<u8>,
    sealed: Seq<u8>,
)
    requires
        nonce.len() == NONCE_LEN,
        chacha20_poly1305_opened(key, nonce, sealed) == Some(
            whitened(scheme, payload, key, nonce),
        ),
    ensures
        unsealed(scheme, key, framed(scheme, nonce, sealed)) == Ok::<Seq<u8>, CipherError>(payload),
{
    lemma_parse_assembled(scheme, nonce, sealed);
    lemma_mask_self_inverse(payload, key, nonce);
}

/// A frame of sufficient length whose leading bytes differ from the format
/// tag in any position is turned away as malformed, whatever the key and
/// whatever follows: authenticated decryption has no part in the outcome.
pub proof fn lemma_header_rejection(scheme: Scheme, key: Seq<u8>, frame: Seq<u8>, at: int)
    requires
        frame.len() >= scheme.tag().len() + NONCE_LEN,
        0 <= at < scheme.tag().len(),
        frame[at] != scheme.tag()[at],
    ensures
        unsealed(scheme, key, frame) == Err::<Seq<u8>, CipherError>(
            CipherError::MalformedFrame(FrameDefect::UnknownFormat),
        ),
{
}

/// The fingerprint is a function of the key: two ciphers with the same key
/// have the same fingerprint, whatever their schemes.
pub proof fn lemma_fingerprint_deterministic(a: ZeroshieldCipher, b: ZeroshieldCipher)
    requires
        a.key_bytes() == b.key_bytes(),
    ensures
        fingerprint_of(a.key_bytes()) == fingerprint_of(b.key_bytes()),
{
}

} // verus!
