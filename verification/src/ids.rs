//! Identifiers of users, blobs and nodes: UUIDs held as their 128-bit value.

use crate::digest::lower_hex;
use crate::codec::copy_range;
use uuid::{Builder, Uuid};
use vstd::prelude::*;

verus! {

/// The sixteen bytes of a UUID, most significant first.
pub open spec fn uuid_bytes(id: u128) -> Seq<u8> {
    Seq::new(16, |i: int| ((id as int / vstd::arithmetic::power::pow(256, (15 - i) as nat)) % 256) as u8)
}

/// The hyphenated lowercase text of sixteen UUID bytes: their 32 hexadecimal digits in
/// groups of 8, 4, 4, 4 and 12, joined by `-`.
pub open spec fn hyphenated_text(bytes: Seq<u8>) -> Seq<char> {
    let h = lower_hex(bytes);
    h.subrange(0, 8) + seq!['-'] + h.subrange(8, 12) + seq!['-'] + h.subrange(12, 16) + seq!['-']
        + h.subrange(16, 20) + seq!['-'] + h.subrange(20, 32)
}

/// The hyphenated lowercase text of a UUID.
pub open spec fn hyphenated(id: u128) -> Seq<char> {
    hyphenated_text(uuid_bytes(id))
}

/// The UUID that `uuid::Uuid::parse_str` reads from `text`, if it accepts it.
pub uninterp spec fn uuid_parsed(text: Seq<char>) -> Option<u128>;

/// A version-4 UUID of the RFC 4122 variant: version nibble 4, variant bits `10`.
pub open spec fn is_random_uuid(id: u128) -> bool {
    &&& (id as int / 0x10_0000_0000_0000_0000_0000) % 16 == 4
    &&& (id as int / 0x4000_0000_0000_0000) % 4 == 2
}

/// Random bytes made into a random UUID: the version nibble of byte 6 set to 4 and the
/// top bits of byte 8 set to the variant `10`.
pub open spec fn with_random_uuid_bits(bytes: Seq<u8>) -> Seq<u8> {
    bytes.update(6, ((bytes[6] & 0x0f) | 0x40) as u8).update(8, ((bytes[8] & 0x3f) | 0x80) as u8)
}

/// `Builder::from_random_bytes(bytes).into_uuid()`, as its 128-bit value: the bytes with
/// the version and variant of a random UUID set.
#[verifier::external_body]
fn uuid_from_random_bytes(bytes: &[u8]) -> (id: u128)
    requires
        bytes@.len() == 16,
    ensures
        uuid_bytes(id) == with_random_uuid_bits(bytes@),
        is_random_uuid(id),
{
    let mut random = [0u8; 16];
    random.copy_from_slice(bytes);
    Builder::from_random_bytes(random).into_uuid().as_u128()
}

/// The random UUID made of the first 16 of 32 random bytes.
pub fn uuid_from_random(random: &[u8; 32]) -> (id: u128)
    ensures
        uuid_bytes(id) == with_random_uuid_bits(random@.take(16)),
        is_random_uuid(id),
{
    let first = copy_range(random, 0, 16);
    assert(first@ =~= random@.take(16));
    uuid_from_random_bytes(first.as_slice())
}

/// `Uuid::from_u128(id).to_string()`: the hyphenated lowercase text, which
/// `Uuid::parse_str` reads back as the same UUID.
#[verifier::external_body]
pub(crate) fn uuid_text(id: u128) -> (text: String)
    ensures
        text@ == hyphenated(id),
        uuid_parsed(text@) == Some(id),
{
    Uuid::from_u128(id).to_string()
}

/// `Uuid::parse_str(text)` (what `str::parse::<Uuid>` calls), as the 128-bit value of the
/// UUID read, or `None` where the text is refused.
#[verifier::external_body]
pub(crate) fn parse_uuid(text: &str) -> (id: Option<u128>)
    ensures
        id == uuid_parsed(text@),
{
    match Uuid::parse_str(text) {
        Ok(u) => Some(u.as_u128()),
        Err(_) => None,
    }
}

} // verus!
