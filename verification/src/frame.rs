//! Wire framing: `format tag || nonce || sealed bytes`.

use vstd::prelude::*;
use crate::scheme::Scheme;

verus! {

/// Length of a nonce in bytes.
pub const NONCE_LEN: usize = 12;

/// Why a byte string is not a frame of the expected scheme.
#[derive(Clone, Copy, Debug, PartialEq, Eq, Structural)]
pub enum FrameDefect {
    /// Shorter than a format tag and a nonce together.
    Truncated,
    /// The leading bytes are not the expected format tag.
    UnknownFormat,
}

/// The frame that carries `sealed` under `nonce`.
pub open spec fn framed(scheme: Scheme, nonce: Seq<u8>, sealed: Seq<u8>) -> Seq<u8> {
    scheme.tag() + nonce + sealed
}

/// The nonce field of a frame.
pub open spec fn nonce_field(scheme: Scheme, frame: Seq<u8>) -> Seq<u8> {
    frame.subrange(scheme.tag().len() as int, scheme.tag().len() + NONCE_LEN)
}

/// What follows the nonce in a frame.
pub open spec fn sealed_field(scheme: Scheme, frame: Seq<u8>) -> Seq<u8> {
    frame.subrange(scheme.tag().len() + NONCE_LEN, frame.len() as int)
}

/// The defect of `frame`, if it has one. Length is judged before the tag.
pub open spec fn defect(scheme: Scheme, frame: Seq<u8>) -> Option<FrameDefect> {
    if frame.len() < scheme.tag().len() + NONCE_LEN {
        Some(FrameDefect::Truncated)
    } else if frame.subrange(0, scheme.tag().len() as int) != scheme.tag() {
        Some(FrameDefect::UnknownFormat)
    } else {
        None
    }
}

/// Joins format tag, nonce and sealed bytes into one frame.
pub fn assemble(scheme: Scheme, nonce: &[u8; 12], sealed: &[u8]) -> (frame: Vec<u8>)
    ensures
        frame@ == framed(scheme, nonce@, sealed@),
{
    let tag = scheme.format_tag();
    let mut frame: Vec<u8> = Vec::new();
    let mut i: usize = 0;
    while i < tag.len()
        invariant
            i <= tag.len(),
            frame@ == tag@.subrange(0, i as int),
        decreases tag.len() - i,
    {
        frame.push(tag[i]);
        i += 1;
    }
    let mut j: usize = 0;
    while j < NONCE_LEN
        invariant
            j <= NONCE_LEN,
            frame@ == tag@ + nonce@.subrange(0, j as int),
        decreases NONCE_LEN - j,
    {
        frame.push(nonce[j]);
        j += 1;
    }
    let mut k: usize = 0;
    while k < sealed.len()
        invariant
            k <= sealed.len(),
            frame@ == tag@ + nonce@ + sealed@.subrange(0, k as int),
        decreases sealed.len() - k,
    {
        frame.push(sealed[k]);
        k += 1;
    }
    frame
}

/// Splits a frame into its nonce and its sealed bytes, after checking its
/// length and then its format tag.
pub fn parse(scheme: Scheme, frame: &[u8]) -> (r: Result<([u8; 12], Vec<u8>), FrameDefect>)
    ensures
        match defect(scheme, frame@) {
            Some(d) => r == Err::<([u8; 12], Vec<u8>), FrameDefect>(d),
            None => r matches Ok(parts) && parts.0@ == nonce_field(scheme, frame@) && parts.1@
                == sealed_field(scheme, frame@),
        },
{
    let tag = scheme.format_tag();
    let tag_len = tag.len();
    if frame.len() < tag_len + NONCE_LEN {
        return Err(FrameDefect::Truncated);
    }
    let mut i: usize = 0;
    while i < tag_len
        invariant
            i <= tag_len,
            tag_len == tag@.len(),
            tag@ == scheme.tag(),
            tag_len + NONCE_LEN <= frame.len(),
            frame@.subrange(0, i as int) == tag@.subrange(0, i as int),
        decreases tag_len - i,
    {
        if frame[i] != tag[i] {
            return Err(FrameDefect::UnknownFormat);
        }
        i += 1;
    }
    assert(tag@.subrange(0, tag_len as int) == tag@);
    let mut nonce: [u8; 12] = [0u8; 12];
    let mut j: usize = 0;
    while j < NONCE_LEN
        invariant
            j <= NONCE_LEN,
            tag_len == tag@.len(),
            tag_len + NONCE_LEN <= frame.len(),
            forall|t: int| 0 <= t < j ==> nonce@[t] == frame@[tag_len + t],
        decreases NONCE_LEN - j,
    {
        nonce[j] = frame[tag_len + j];
        j += 1;
    }
    let mut sealed: Vec<u8> = Vec::new();
    let mut k: usize = tag_len + NONCE_LEN;
    while k < frame.len()
        invariant
            tag_len + NONCE_LEN <= k <= frame.len(),
            sealed@ == frame@.subrange(tag_len + NONCE_LEN, k as int),
        decreases frame.len() - k,
    {
        sealed.push(frame[k]);
        k += 1;
    }
    Ok((nonce, sealed))
}

/// A frame that was assembled parses back into the nonce and the sealed
/// bytes it was assembled from.
pub proof fn lemma_parse_assembled(scheme: Scheme, nonce: Seq<u8>, sealed: Seq<u8>)
    requires
        nonce.len() == NONCE_LEN,
    ensures
        defect(scheme, framed(scheme, nonce, sealed)) is None,
        nonce_field(scheme, framed(scheme, nonce, sealed)) == nonce,
        sealed_field(scheme, framed(scheme, nonce, sealed)) == sealed,
{
    let frame = framed(scheme, nonce, sealed);
    assert(frame.subrange(0, scheme.tag().len() as int) == scheme.tag());
}

} // verus!
