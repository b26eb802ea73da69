//! Logos embedded into a badge as data URIs.

use base64::engine::general_purpose::STANDARD;
use base64::Engine;
use vstd::prelude::*;
use vstd::string::*;

verus! {

/// Prefix of a data URI that holds base64-encoded SVG markup.
pub const SVG_DATA_URI_PREFIX: &'static str = "data:image/svg+xml;base64,";

/// The standard base64 alphabet.
pub open spec fn base64_alphabet() -> Seq<char> {
    seq![
        'A', 'B', 'C', 'D', 'E', 'F', 'G', 'H', 'I', 'J', 'K', 'L', 'M', 'N', 'O', 'P',
        'Q', 'R', 'S', 'T', 'U', 'V', 'W', 'X', 'Y', 'Z', 'a', 'b', 'c', 'd', 'e', 'f',
        'g', 'h', 'i', 'j', 'k', 'l', 'm', 'n', 'o', 'p', 'q', 'r', 's', 't', 'u', 'v',
        'w', 'x', 'y', 'z', '0', '1', '2', '3', '4', '5', '6', '7', '8', '9', '+', '/',
    ]
}

/// The base64 digit of a six-bit value.
pub open spec fn digit(v: int) -> char {
    base64_alphabet()[v]
}

/// The standard base64 encoding of some bytes: four digits for each group of
/// three bytes, the last group padded with `=`.
pub open spec fn base64_of(bytes: Seq<u8>) -> Seq<char>
    decreases bytes.len(),
{
    if bytes.len() == 0 {
        seq![]
    } else if bytes.len() == 1 {
        seq![digit((bytes[0] as int) / 4), digit(((bytes[0] as int) % 4) * 16), '=', '=']
    } else if bytes.len() == 2 {
        seq![
            digit((bytes[0] as int) / 4),
            digit(((bytes[0] as int) % 4) * 16 + (bytes[1] as int) / 16),
            digit(((bytes[1] as int) % 16) * 4),
            '=',
        ]
    } else {
        seq![
            digit((bytes[0] as int) / 4),
            digit(((bytes[0] as int) % 4) * 16 + (bytes[1] as int) / 16),
            digit(((bytes[1] as int) % 16) * 4 + (bytes[2] as int) / 64),
            digit((bytes[2] as int) % 64),
        ] + base64_of(bytes.subrange(3, bytes.len() as int))
    }
}

/// Relies on `Engine::encode` of base64 with the `STANDARD` engine (standard
/// alphabet, with padding). It panics only where the length of the result
/// overflows `usize`.
#[verifier::external_body]
fn base64_encode(bytes: &[u8]) -> (r: String)
    requires
        bytes@.len() <= usize::MAX / 2,
    ensures
        r@ == base64_of(bytes@),
{
    STANDARD.encode(bytes)
}

/// Embeds SVG markup as a base64 data URI.
pub fn svg_data_uri(svg: &str) -> (r: String)
    requires
        svg.spec_bytes().len() <= usize::MAX / 2,
    ensures
        r@ == SVG_DATA_URI_PREFIX@ + base64_of(svg.spec_bytes()),
{
    let encoded = base64_encode(svg.as_bytes());
    SVG_DATA_URI_PREFIX.to_owned().concat(encoded.as_str())
}

} // verus!
