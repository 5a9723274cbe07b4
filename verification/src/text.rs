//! Turning bytes into text.

use std::string::FromUtf8Error;
use vstd::prelude::*;
use vstd::utf8::{
    decode_utf8, encode_utf8, encode_utf8_decode_utf8, encode_utf8_valid_utf8, is_ascii_chars,
    is_ascii_chars_encode_utf8, valid_utf8,
};

verus! {

/// `std::string::FromUtf8Error`, the error of `String::from_utf8`.
#[verifier::external_type_specification]
#[verifier::external_body]
pub struct ExFromUtf8Error(FromUtf8Error);

/// `String::from_utf8`: the text that `bytes` encode, or an error exactly when they are
/// not valid UTF-8.
#[verifier::external_body]
pub(crate) fn utf8_to_string(bytes: Vec<u8>) -> (text: Result<String, FromUtf8Error>)
    ensures
        text is Ok <==> valid_utf8(bytes@),
        text matches Ok(s) ==> s@ == decode_utf8(bytes@),
{
    String::from_utf8(bytes)
}

/// The characters that ASCII codes stand for.
pub open spec fn ascii_chars(codes: Seq<u8>) -> Seq<char> {
    Seq::new(codes.len(), |i: int| codes[i] as char)
}

/// The text of a string of ASCII codes.
pub fn ascii_text(codes: Vec<u8>) -> (text: String)
    requires
        forall|i: int| 0 <= i < codes@.len() ==> #[trigger] codes@[i] < 128,
    ensures
        text@ == ascii_chars(codes@),
{
    let ghost chars = ascii_chars(codes@);
    proof {
        assert(is_ascii_chars(chars));
        is_ascii_chars_encode_utf8(chars);
        assert forall|i: int| 0 <= i < codes@.len() implies encode_utf8(chars)[i] == codes@[i] by {
            assert(chars[i] as u8 == encode_utf8(chars)[i]);
            let b = codes@[i];
            assert((b as char) as u8 == b);
        }
        assert(encode_utf8(chars) =~= codes@);
        encode_utf8_valid_utf8(chars);
        encode_utf8_decode_utf8(chars);
    }
    match utf8_to_string(codes) {
        Ok(s) => s,
        Err(_) => {
            assert(false);
            String::new()
        },
    }
}

} // verus!
