//! Symmetric sealing of byte payloads under a 256-bit secret key.
//!
//! A payload is whitened with a keystream derived from the key and a fresh
//! nonce, sealed with ChaCha20-Poly1305, and framed as
//! `format tag || nonce || ciphertext || authentication tag`.

pub mod aead;
pub mod cipher;
pub mod clock;
pub mod digest;
pub mod encoding;
pub mod entropy;
pub mod error;
pub mod frame;
pub mod keystream;
pub mod mask;
pub mod scheme;

pub use cipher::{SealMeta, ZeroshieldCipher};
pub use error::CipherError;
pub use frame::FrameDefect;
pub use scheme::Scheme;
