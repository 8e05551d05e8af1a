//! The whitening layer: a payload is combined byte for byte, by exclusive
//! or, with the keystream of its own length. Applying it twice under the same
//! key and nonce gives the payload back.

use vstd::prelude::*;
use crate::keystream::keystream;

verus! {

/// Byte-wise exclusive or of `data` and `pad`, as long as the shorter of the
/// two.
pub open spec fn xored(data: Seq<u8>, pad: Seq<u8>) -> Seq<u8> {
    Seq::new(
        if data.len() <= pad.len() {
            data.len()
        } else {
            pad.len()
        },
        |i: int| data[i] ^ pad[i],
    )
}

/// `data` whitened under `key` and `nonce`.
pub open spec fn masked(data: Seq<u8>, key: Seq<u8>, nonce: Seq<u8>) -> Seq<u8> {
    xored(data, keystream(key, nonce, data.len()))
}

/// Combines `data` and `pad` by exclusive or, position for position, up to the
/// end of the shorter one.
pub fn xor_with(data: &[u8], pad: &[u8]) -> (out: Vec<u8>)
    ensures
        out@ == xored(data@, pad@),
{
    let n: usize = if data.len() <= pad.len() {
        data.len()
    } else {
        pad.len()
    };
    let mut out: Vec<u8> = Vec::new();
    let mut i: usize = 0;
    while i < n
        invariant
            i <= n,
            n <= data.len(),
            n <= pad.len(),
            out@.len() == i,
            forall|t: int| 0 <= t < i ==> out@[t] == data@[t] ^ pad@[t],
        decreases n - i,
    {
        out.push(data[i] ^ pad[i]);
        i += 1;
    }
    out
}

/// Whitens `data` under `key` and `nonce`; the output has the length of the
/// input. The same call undoes it.
pub fn qt_xor_keyed(data: &[u8], key: &[u8; 32], nonce: &[u8; 12]) -> (out: Vec<u8>)
    ensures
        out@ == masked(data@, key@, nonce@),
        out@.len() == data@.len(),
{
    let pad = crate::keystream::derive(key, nonce, data.len());
    xor_with(data, pad.as_slice())
}

/// Exclusive or with the same pad twice gives the data back, where the pad
/// covers the data.
pub proof fn lemma_xor_twice(data: Seq<u8>, pad: Seq<u8>)
    requires
        data.len() <= pad.len(),
    ensures
        xored(xored(data, pad), pad) == data,
{
    assert forall|i: int| 0 <= i < data.len() implies xored(xored(data, pad), pad)[i] == data[i] by {
        let d = data[i];
        let p = pad[i];
        assert((d ^ p) ^ p == d) by (bit_vector);
    }
}

/// Whitening is its own inverse: for every payload, key and nonce, whitening
/// the whitened payload under the same key and nonce gives the payload back.
pub proof fn lemma_mask_self_inverse(data: Seq<u8>, key: Seq<u8>, nonce: Seq<u8>)
    ensures
        masked(data, key, nonce).len() == data.len(),
        masked(masked(data, key, nonce), key, nonce) == data,
{
    lemma_xor_twice(data, keystream(key, nonce, data.len()));
}

} // verus!
