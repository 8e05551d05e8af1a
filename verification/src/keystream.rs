//! Keystream derivation: HKDF-SHA256 turns the secret key and the nonce into
//! a 32-byte seed, and a ChaCha20 generator seeded with it supplies the
//! stream, word by word.

use vstd::prelude::*;
use rand::{RngCore, SeedableRng};
use rand_chacha::ChaCha20Rng;
use ring::hkdf::{Salt, HKDF_SHA256};

verus! {

/// Domain-separation label bound into every seed: the ASCII bytes
/// `SQEP:LITE:QT:v1`.
pub const DOMAIN_LABEL: [u8; 15] = [
    0x53, 0x51, 0x45, 0x50, 0x3a, 0x4c, 0x49, 0x54, 0x45, 0x3a, 0x51, 0x54, 0x3a, 0x76, 0x31,
];

/// The first 32 bytes of HKDF-SHA256 output keying material (RFC 5869) for
/// the given salt, input keying material and info.
pub uninterp spec fn hkdf_sha256_okm(salt: Seq<u8>, secret: Seq<u8>, info: Seq<u8>) -> Seq<u8>;

/// The word that a ChaCha20 generator seeded with `seed` yields at word
/// position `word_pos` of stream number zero, the stream of a generator that
/// was never given another.
pub uninterp spec fn chacha20_word(seed: Seq<u8>, word_pos: nat) -> u32;

/// The seed a generator was made from (`ChaCha20Rng::get_seed`).
pub uninterp spec fn generator_seed(rng: ChaCha20Rng) -> Seq<u8>;

/// The position in its stream at which a generator stands
/// (`ChaCha20Rng::get_word_pos`).
pub uninterp spec fn generator_word_pos(rng: ChaCha20Rng) -> nat;

/// The number of the stream that a generator draws from
/// (`ChaCha20Rng::get_stream`).
pub uninterp spec fn generator_stream(rng: ChaCha20Rng) -> u64;

/// The ChaCha20 generator of `rand_chacha`, opaque to the verifier.
#[verifier::external_type_specification]
#[verifier::external_body]
pub struct ExChaCha20Rng(rand_chacha::ChaCha20Rng);

/// Number of word positions in a generator's stream: 2^68, after which the
/// position wraps to zero.
pub open spec fn word_positions() -> nat {
    0x10_0000_0000_0000_0000nat
}

/// `ring::hkdf`: `Salt::new(HKDF_SHA256, salt).extract(secret)`, then
/// `expand` with the single info string and `fill` of 32 bytes. The result is
/// a function of the three byte strings alone. Neither step fails: 32 bytes
/// are within the HKDF-SHA256 output limit, and the buffer has the length
/// that the expansion announces.
#[verifier::external_body]
fn hkdf_sha256(salt: &[u8], secret: &[u8], info: &[u8]) -> (okm: [u8; 32])
    ensures
        okm@ == hkdf_sha256_okm(salt@, secret@, info@),
{
    let prk = Salt::new(HKDF_SHA256, salt).extract(secret);
    let labels = [info];
    let mut okm = [0u8; 32];
    let expansion = prk.expand(&labels, HKDF_SHA256).expect("32 bytes are within the HKDF limit");
    expansion.fill(&mut okm).expect("the buffer has the announced length");
    okm
}

/// `ChaCha20Rng::from_seed`: a generator that holds `seed`, draws from stream
/// number zero and stands at word position zero of it.
#[verifier::external_body]
fn generator_from_seed(seed: [u8; 32]) -> (rng: ChaCha20Rng)
    ensures
        generator_seed(rng) == seed@,
        generator_stream(rng) == 0,
        generator_word_pos(rng) == 0,
{
    ChaCha20Rng::from_seed(seed)
}

/// `RngCore::next_u32` on a `ChaCha20Rng` that draws from stream number zero:
/// yields the word at the current position of that stream for the seed, and
/// moves one position on, wrapping after 2^68 words. Seed and stream number
/// stay as they are. Of a generator on another stream nothing is claimed.
#[verifier::external_body]
fn next_word(rng: &mut ChaCha20Rng) -> (word: u32)
    requires
        generator_stream(*old(rng)) == 0,
    ensures
        word == chacha20_word(generator_seed(*old(rng)), generator_word_pos(*old(rng))),
        generator_seed(*final(rng)) == generator_seed(*old(rng)),
        generator_stream(*final(rng)) == 0,
        generator_word_pos(*final(rng)) == (generator_word_pos(*old(rng)) + 1) % word_positions(),
{
    rng.next_u32()
}

/// The four bytes of a word, least significant first.
pub open spec fn le_bytes(word: u32) -> Seq<u8> {
    seq![
        (word & 0xff) as u8,
        ((word >> 8) & 0xff) as u8,
        ((word >> 16) & 0xff) as u8,
        ((word >> 24) & 0xff) as u8,
    ]
}

/// Byte `i` of the stream that belongs to `seed`: the words of the stream in
/// order, each laid out least significant byte first.
pub open spec fn stream_byte(seed: Seq<u8>, i: int) -> u8 {
    le_bytes(chacha20_word(seed, (i / 4) as nat))[i % 4]
}

/// The first `len` bytes of the stream that belongs to `seed`.
pub open spec fn stream_bytes(seed: Seq<u8>, len: nat) -> Seq<u8> {
    Seq::new(len, |i: int| stream_byte(seed, i))
}

/// The seed for a key and a nonce: the nonce is the salt, the key the input
/// keying material, the domain label the info.
pub open spec fn seed_of(key: Seq<u8>, nonce: Seq<u8>) -> Seq<u8> {
    hkdf_sha256_okm(nonce, key, DOMAIN_LABEL@)
}

/// The keystream of `len` bytes for a key and a nonce.
pub open spec fn keystream(key: Seq<u8>, nonce: Seq<u8>, len: nat) -> Seq<u8> {
    stream_bytes(seed_of(key, nonce), len)
}

/// Lays a word out as four bytes, least significant first.
pub fn word_to_le_bytes(word: u32) -> (bytes: [u8; 4])
    ensures
        bytes@ == le_bytes(word),
{
    let bytes: [u8; 4] = [
        (word & 0xff) as u8,
        ((word >> 8) & 0xff) as u8,
        ((word >> 16) & 0xff) as u8,
        ((word >> 24) & 0xff) as u8,
    ];
    assert(bytes@ =~= le_bytes(word));
    bytes
}

/// Appends the first `take` bytes of a word, least significant first, to a
/// keystream under construction.
pub fn push_word(stream: &mut Vec<u8>, word: u32, take: usize)
    requires
        take <= 4,
    ensures
        final(stream)@ == old(stream)@ + le_bytes(word).subrange(0, take as int),
{
    let bytes = word_to_le_bytes(word);
    let mut k: usize = 0;
    while k < take
        invariant
            k <= take <= 4,
            bytes@ == le_bytes(word),
            stream@ == old(stream)@ + le_bytes(word).subrange(0, k as int),
        decreases take - k,
    {
        stream.push(bytes[k]);
        k += 1;
    }
}

/// Draws `length` bytes from a ChaCha20 generator seeded with `seed`: whole
/// words in stream order, and of the last word only the bytes still wanted.
pub fn expand_seed(seed: [u8; 32], length: usize) -> (stream: Vec<u8>)
    ensures
        stream@ == stream_bytes(seed@, length as nat),
{
    let mut rng = generator_from_seed(seed);
    let mut stream: Vec<u8> = Vec::new();
    let mut i: usize = 0;
    while i < length
        invariant
            i <= length,
            i < length ==> i % 4 == 0,
            generator_seed(rng) == seed@,
            generator_stream(rng) == 0,
            i < length ==> generator_word_pos(rng) == i / 4,
            stream@ == stream_bytes(seed@, i as nat),
        decreases length - i,
    {
        let word = next_word(&mut rng);
        let take: usize = if length - i < 4 {
            length - i
        } else {
            4
        };
        push_word(&mut stream, word, take);
        assert forall|t: int| i <= t < i + take implies stream@[t] == stream_byte(seed@, t) by {
            assert(t / 4 == i / 4 && t % 4 == t - i);
        }
        assert(stream@ =~= stream_bytes(seed@, (i + take) as nat));
        i += take;
    }
    stream
}

/// Derives the 32-byte generator seed for a key and a nonce.
pub fn derive_seed(key: &[u8; 32], nonce: &[u8; 12]) -> (seed: [u8; 32])
    ensures
        seed@ == seed_of(key@, nonce@),
{
    hkdf_sha256(nonce.as_slice(), key.as_slice(), DOMAIN_LABEL.as_slice())
}

/// Derives the keystream of exactly `length` bytes for a key and a nonce. The
/// same inputs always give the same stream; a length of zero gives an empty one.
pub fn derive(key: &[u8; 32], nonce: &[u8; 12], length: usize) -> (stream: Vec<u8>)
    ensures
        stream@ == keystream(key@, nonce@, length as nat),
        stream@.len() == length,
{
    let seed = derive_seed(key, nonce);
    expand_seed(seed, length)
}

} // verus!
