//! Standard base64 (RFC 4648 alphabet, with `=` padding), through the `base64` crate.

use base64::engine::general_purpose::STANDARD;
use base64::DecodeError;
use base64::Engine;
use vstd::prelude::*;

verus! {

/// `base64::DecodeError`, carried opaquely inside `CryptoError`.
#[verifier::external_type_specification]
#[verifier::external_body]
pub struct ExDecodeError(DecodeError);

/// The character of the standard alphabet for a six-bit value.
pub open spec fn base64_symbol(v: nat) -> char {
    if v < 26 {
        (v + 65) as char
    } else if v < 52 {
        (v - 26 + 97) as char
    } else if v < 62 {
        (v - 52 + 48) as char
    } else if v == 62 {
        '+'
    } else {
        '/'
    }
}

/// The standard padded base64 text of `bytes`: each group of three bytes becomes four
/// symbols; a final group of one or two bytes is padded with `=` to four characters.
pub open spec fn base64_standard(bytes: Seq<u8>) -> Seq<char>
    decreases bytes.len(),
{
    if bytes.len() == 0 {
        Seq::empty()
    } else if bytes.len() == 1 {
        let n = bytes[0] as nat * 65536;
        seq![base64_symbol(n / 262144), base64_symbol((n / 4096) % 64), '=', '=']
    } else if bytes.len() == 2 {
        let n = bytes[0] as nat * 65536 + bytes[1] as nat * 256;
        seq![
            base64_symbol(n / 262144),
            base64_symbol((n / 4096) % 64),
            base64_symbol((n / 64) % 64),
            '=',
        ]
    } else {
        let n = bytes[0] as nat * 65536 + bytes[1] as nat * 256 + bytes[2] as nat;
        seq![
            base64_symbol(n / 262144),
            base64_symbol((n / 4096) % 64),
            base64_symbol((n / 64) % 64),
            base64_symbol(n % 64),
        ] + base64_standard(bytes.skip(3))
    }
}

/// The length of the padded encoding of `len` bytes fits in a `usize`.
pub open spec fn base64_length_fits(len: nat) -> bool {
    if len % 3 == 0 {
        len / 3 * 4 <= usize::MAX
    } else {
        len / 3 * 4 + 4 <= usize::MAX
    }
}

/// Whether the padded base64 text of `len` bytes has a length that fits in a `usize`.
pub fn encoded_length_fits(len: usize) -> (fits: bool)
    ensures
        fits == base64_length_fits(len as nat),
{
    let groups = len / 3;
    if groups > usize::MAX / 4 {
        assert(groups * 4 > usize::MAX) by (nonlinear_arith)
            requires
                groups > usize::MAX / 4,
        ;
        return false;
    }
    assert(groups * 4 <= usize::MAX) by (nonlinear_arith)
        requires
            groups <= usize::MAX / 4,
    ;
    let n = groups * 4;
    if len % 3 == 0 {
        true
    } else {
        n <= usize::MAX - 4
    }
}

/// What the `base64` crate's standard engine decodes `text` to, if it accepts it.
pub uninterp spec fn base64_standard_decoded(text: Seq<char>) -> Option<Seq<u8>>;

/// `STANDARD.encode(bytes)`: the padded standard encoding, which the same engine decodes
/// back to `bytes`. The encoder panics when the encoded length overflows a `usize`.
#[verifier::external_body]
pub(crate) fn base64_encode(bytes: &[u8]) -> (text: String)
    requires
        base64_length_fits(bytes@.len()),
    ensures
        text@ == base64_standard(bytes@),
        base64_standard_decoded(text@) == Some(bytes@),
{
    STANDARD.encode(bytes)
}

/// `STANDARD.decode(text)`: the bytes `text` encodes, or the crate's error when the engine
/// rejects it.
#[verifier::external_body]
pub(crate) fn base64_decode(text: &str) -> (decoded: Result<Vec<u8>, DecodeError>)
    ensures
        base64_standard_decoded(text@) == match decoded {
            Ok(bytes) => Some(bytes@),
            Err(_) => None::<Seq<u8>>,
        },
{
    STANDARD.decode(text)
}

} // verus!
