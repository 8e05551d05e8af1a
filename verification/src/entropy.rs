//! The secure random source of the operating system.

use vstd::prelude::*;
use ring::error::Unspecified;
use ring::rand::{SecureRandom, SystemRandom};

verus! {

/// `ring::rand`: `SecureRandom::fill` of a `SystemRandom`, on a buffer of `N`
/// bytes. Nothing is known of the bytes; the call fails where the system
/// cannot supply them.
#[verifier::external_body]
pub(crate) fn random_bytes<const N: usize>() -> (r: Result<[u8; N], Unspecified>) {
    let mut bytes = [0u8; N];
    SystemRandom::new().fill(&mut bytes)?;
    Ok(bytes)
}

} // verus!
