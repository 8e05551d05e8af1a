//! Text forms of byte strings: lower-case hexadecimal and standard base64.

use vstd::prelude::*;
use vstd::string::StringSliceAdditionalSpecFns;
use vstd::utf8::valid_utf8;
use base64::Engine;
use base64::engine::general_purpose::STANDARD;

verus! {

/// The hexadecimal digits, lower case.
pub const HEX_DIGITS: [char; 16] = [
    '0', '1', '2', '3', '4', '5', '6', '7', '8', '9', 'a', 'b', 'c', 'd', 'e', 'f',
];

/// The base64 alphabet of RFC 4648, section 4.
pub const BASE64_ALPHABET: [char; 64] = [
    'A', 'B', 'C', 'D', 'E', 'F', 'G', 'H', 'I', 'J', 'K', 'L', 'M', 'N', 'O', 'P',
    'Q', 'R', 'S', 'T', 'U', 'V', 'W', 'X', 'Y', 'Z', 'a', 'b', 'c', 'd', 'e', 'f',
    'g', 'h', 'i', 'j', 'k', 'l', 'm', 'n', 'o', 'p', 'q', 'r', 's', 't', 'u', 'v',
    'w', 'x', 'y', 'z', '0', '1', '2', '3', '4', '5', '6', '7', '8', '9', '+', '/',
];

/// Two lower-case hexadecimal digits for each byte, high nibble first.
pub open spec fn hex_lower(bytes: Seq<u8>) -> Seq<char> {
    Seq::new(
        2 * bytes.len(),
        |i: int|
            if i % 2 == 0 {
                HEX_DIGITS@[(bytes[i / 2] >> 4) as int]
            } else {
                HEX_DIGITS@[(bytes[i / 2] & 0x0f) as int]
            },
    )
}

/// The base64 symbol for a six-bit value.
pub open spec fn base64_symbol(value: u8) -> char {
    BASE64_ALPHABET@[value as int]
}

/// Standard base64 with padding: each group of three bytes gives four
/// symbols, and a last group of one or two bytes is filled up with `=`.
pub open spec fn base64_standard(bytes: Seq<u8>) -> Seq<char>
    decreases bytes.len(),
{
    if bytes.len() == 0 {
        Seq::empty()
    } else if bytes.len() == 1 {
        seq![
            base64_symbol(bytes[0] >> 2),
            base64_symbol((bytes[0] & 0x03) << 4),
            '=',
            '=',
        ]
    } else if bytes.len() == 2 {
        seq![
            base64_symbol(bytes[0] >> 2),
            base64_symbol(((bytes[0] & 0x03) << 4) | (bytes[1] >> 4)),
            base64_symbol((bytes[1] & 0x0f) << 2),
            '=',
        ]
    } else {
        seq![
            base64_symbol(bytes[0] >> 2),
            base64_symbol(((bytes[0] & 0x03) << 4) | (bytes[1] >> 4)),
            base64_symbol(((bytes[1] & 0x0f) << 2) | (bytes[2] >> 6)),
            base64_symbol(bytes[2] & 0x3f),
        ] + base64_standard(bytes.skip(3))
    }
}

/// The error of a byte string that is not UTF-8.
#[verifier::external_type_specification]
#[verifier::external_body]
pub struct ExUtf8Error(core::str::Utf8Error);

/// `core::str::from_utf8` accepts exactly the byte strings that are valid
/// UTF-8, and the text it returns has those bytes as its encoding.
pub assume_specification[ core::str::from_utf8 ](bytes: &[u8]) -> (r: Result<
    &str,
    core::str::Utf8Error,
>)
    ensures
        r is Ok <==> valid_utf8(bytes@),
        r matches Ok(text) ==> text.spec_bytes() == bytes@,
;

/// `hex::encode`: two lower-case hexadecimal digits per byte, in order.
#[verifier::external_body]
pub(crate) fn hex_encode(bytes: &[u8]) -> (text: String)
    ensures
        text@ == hex_lower(bytes@),
{
    hex::encode(bytes)
}

/// `base64`: `Engine::encode` of the `STANDARD` engine, which uses the
/// alphabet of RFC 4648 and pads with `=`.
#[verifier::external_body]
pub(crate) fn base64_encode(bytes: &[u8]) -> (text: String)
    ensures
        text@ == base64_standard(bytes@),
{
    STANDARD.encode(bytes)
}

} // verus!
