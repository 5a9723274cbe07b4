//! Content hashes: SHA-256 digests written as lowercase hexadecimal text.

use crate::text::{ascii_chars, ascii_text};
use sha2::{Digest, Sha256};
use vstd::prelude::*;

verus! {

/// The SHA-256 digest of `bytes`, as the `sha2` crate computes it.
pub uninterp spec fn sha256_of(bytes: Seq<u8>) -> Seq<u8>;

/// `Sha256::new()`, `update(bytes)`, `finalize()`: the 32-byte SHA-256 digest of `bytes`.
#[verifier::external_body]
fn sha256_digest(bytes: &[u8]) -> (digest: [u8; 32])
    ensures
        digest@ == sha256_of(bytes@),
{
    let mut hasher = Sha256::new();
    hasher.update(bytes);
    hasher.finalize().into()
}

/// The lowercase hexadecimal digit for a value below 16.
pub open spec fn hex_digit(v: nat) -> char {
    if v < 10 {
        (v + 48) as char
    } else {
        (v - 10 + 97) as char
    }
}

/// Lowercase hexadecimal text of `bytes`: two digits per byte, high half first.
pub open spec fn lower_hex(bytes: Seq<u8>) -> Seq<char> {
    Seq::new(
        2 * bytes.len(),
        |i: int|
            if i % 2 == 0 {
                hex_digit((bytes[i / 2] / 16) as nat)
            } else {
                hex_digit((bytes[i / 2] % 16) as nat)
            },
    )
}

/// The ASCII code of the lowercase hexadecimal digit for `v`.
fn hex_code(v: u8) -> (code: u8)
    requires
        v < 16,
    ensures
        code < 128,
        code as char == hex_digit(v as nat),
{
    if v < 10 {
        v + 48
    } else {
        v - 10 + 97
    }
}

/// Lowercase hexadecimal text of `bytes`.
pub fn to_lower_hex(bytes: &[u8]) -> (text: String)
    requires
        2 * bytes@.len() <= usize::MAX,
    ensures
        text@ == lower_hex(bytes@),
{
    let mut codes: Vec<u8> = Vec::new();
    let mut i: usize = 0;
    while i < bytes.len()
        invariant
            i <= bytes@.len(),
            2 * bytes@.len() <= usize::MAX,
            codes@.len() == 2 * i,
            forall|j: int| 0 <= j < codes@.len() ==> #[trigger] codes@[j] < 128,
            forall|j: int|
                0 <= j < codes@.len() ==> #[trigger] ascii_chars(codes@)[j] == lower_hex(bytes@)[j],
        decreases bytes@.len() - i,
    {
        let b = bytes[i];
        let high = hex_code(b / 16);
        let low = hex_code(b % 16);
        let ghost before = codes@;
        codes.push(high);
        codes.push(low);
        proof {
            assert forall|j: int| 0 <= j < codes@.len() implies #[trigger] ascii_chars(codes@)[j]
                == lower_hex(bytes@)[j] by {
                if j < before.len() {
                    assert(ascii_chars(before)[j] == lower_hex(bytes@)[j]);
                    assert(codes@[j] == before[j]);
                } else if j == before.len() {
                    assert(j / 2 == i);
                } else {
                    assert(j / 2 == i);
                }
            }
        }
        i = i + 1;
    }
    let text = ascii_text(codes);
    assert(text@ =~= lower_hex(bytes@));
    text
}

/// The hash under which a blob is stored and checked: the lowercase hexadecimal SHA-256
/// digest of its content.
pub fn content_hash(content: &[u8]) -> (hash: String)
    ensures
        hash@ == lower_hex(sha256_of(content@)),
        hash@.len() == 64,
{
    let digest = sha256_digest(content);
    to_lower_hex(&digest)
}

} // verus!
