//! The outcomes that sealing and unsealing report besides success.

use vstd::prelude::*;
use crate::frame::FrameDefect;

verus! {

/// Why an operation of the cipher did not yield its result.
#[derive(Clone, Copy, Debug, PartialEq, Eq, Structural)]
pub enum CipherError {
    /// The input is not a frame of the cipher's scheme: it is too short, or
    /// its format tag is another one. Found before any cryptographic work.
    MalformedFrame(FrameDefect),
    /// Authenticated decryption rejected the frame. Wrong key, altered bytes,
    /// a cut or lengthened ciphertext and an altered nonce all end here, one
    /// not told from another.
    AuthenticationFailure,
    /// The frame is authentic, but its payload is not UTF-8 text.
    TextDecodingFailure,
    /// The system could not supply what a seal needs from it: fresh random
    /// bytes, or a clock reading on or after the Unix epoch.
    EnvironmentFailure,
}

} // verus!
