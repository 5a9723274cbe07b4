//! Arbitrary-precision natural numbers, stored as little-endian bytes.
//!
//! All arithmetic is delegated to `num_bigint::BigUint`; each call goes through
//! a trusted wrapper whose contract states the arithmetic it performs.

use num_bigint::BigUint;
use vstd::arithmetic::power::pow;
use vstd::prelude::*;

verus! {

/// The number that a little-endian byte string denotes.
pub open spec fn le_nat(bytes: Seq<u8>) -> nat
    decreases bytes.len(),
{
    if bytes.len() == 0 {
        0
    } else {
        bytes[0] as nat + 256 * le_nat(bytes.drop_first())
    }
}

/// The number that a big-endian byte string denotes.
pub open spec fn be_nat(bytes: Seq<u8>) -> nat
    decreases bytes.len(),
{
    if bytes.len() == 0 {
        0
    } else {
        be_nat(bytes.drop_last()) * 256 + bytes.last() as nat
    }
}

/// The shape `BigUint::to_bytes_le` produces: at least one byte, and no zero high byte
/// unless the number is zero and written as the single byte 0.
pub open spec fn canonical_le(bytes: Seq<u8>) -> bool {
    bytes.len() >= 1 && (bytes.len() == 1 || bytes.last() != 0)
}

/// A little-endian byte string of length `n` denotes a number below `256^n`.
pub proof fn lemma_le_nat_bound(bytes: Seq<u8>)
    ensures
        le_nat(bytes) < pow(256, bytes.len()),
    decreases bytes.len(),
{
    reveal(pow);
    if bytes.len() > 0 {
        lemma_le_nat_bound(bytes.drop_first());
        assert(pow(256, bytes.len()) == 256 * pow(256, (bytes.len() - 1) as nat));
    }
}

/// A little-endian byte string whose last byte is non-zero denotes at least
/// `256^(n-1)`.
pub proof fn lemma_le_nat_top_byte(bytes: Seq<u8>)
    requires
        bytes.len() >= 1,
        bytes.last() != 0,
    ensures
        le_nat(bytes) >= pow(256, (bytes.len() - 1) as nat),
    decreases bytes.len(),
{
    reveal(pow);
    if bytes.len() > 1 {
        let rest = bytes.drop_first();
        assert(rest.last() == bytes.last());
        lemma_le_nat_top_byte(rest);
    } else {
        assert(bytes.drop_first().len() == 0);
    }
}

/// A canonical byte string for a number below `256^k` has at most `k` bytes.
pub proof fn lemma_canonical_length(bytes: Seq<u8>, k: nat)
    requires
        canonical_le(bytes),
        k >= 1,
        le_nat(bytes) < pow(256, k),
    ensures
        bytes.len() <= k,
{
    if bytes.len() > 1 {
        lemma_le_nat_top_byte(bytes);
        if bytes.len() > k {
            vstd::arithmetic::power::lemma_pow_increases(256, k, (bytes.len() - 1) as nat);
        }
    }
}

/// True when every character is an ASCII decimal digit.
pub open spec fn all_decimal_digits(text: Seq<char>) -> bool {
    forall|i: int| 0 <= i < text.len() ==> '0' <= #[trigger] text[i] <= '9'
}

/// The number that a string of decimal digits denotes (most significant digit first).
pub open spec fn decimal_value(text: Seq<char>) -> nat
    decreases text.len(),
{
    if text.len() == 0 {
        0
    } else {
        decimal_value(text.drop_last()) * 10 + (text.last() as nat - '0' as nat) as nat
    }
}

/// A natural number of unbounded size.
#[derive(Debug, Clone, PartialEq, Eq)]
pub struct Natural {
    bytes: Vec<u8>,
}

impl View for Natural {
    type V = nat;

    closed spec fn view(&self) -> nat {
        le_nat(self.bytes@)
    }
}

impl Natural {
    /// The little-endian bytes that hold this number.
    pub closed spec fn le_bytes(&self) -> Seq<u8> {
        self.bytes@
    }

    /// The value is the number its bytes denote.
    pub proof fn lemma_value_of_bytes(&self)
        ensures
            self@ == le_nat(self.le_bytes()),
    {
    }

    /// The little-endian bytes of this number.
    pub fn to_bytes_le(&self) -> (bytes: Vec<u8>)
        ensures
            bytes@ == self.le_bytes(),
            le_nat(bytes@) == self@,
    {
        self.bytes.clone()
    }

    /// The number that `bytes` denotes, read little-endian.
    pub fn from_bytes_le(bytes: &[u8]) -> (n: Natural)
        ensures
            canonical_le(n.le_bytes()),
            n@ == le_nat(bytes@),
    {
        big_from_bytes_le(bytes)
    }

    /// The number that `bytes` denotes, read big-endian.
    pub fn from_bytes_be(bytes: &[u8]) -> (n: Natural)
        ensures
            canonical_le(n.le_bytes()),
            n@ == be_nat(bytes@),
    {
        big_from_bytes_be(bytes)
    }

    /// The number `value`.
    pub fn from_u32(value: u32) -> (n: Natural)
        ensures
            canonical_le(n.le_bytes()),
            n@ == value,
    {
        big_from_u32(value)
    }
}

/// `BigUint::from_bytes_le`: the number denoted by little-endian bytes.
#[verifier::external_body]
pub(crate) fn big_from_bytes_le(bytes: &[u8]) -> (n: Natural)
    ensures
        canonical_le(n.le_bytes()),
        n@ == le_nat(bytes@),
{
    Natural { bytes: BigUint::from_bytes_le(bytes).to_bytes_le() }
}

/// `BigUint::from_bytes_be`: the number denoted by big-endian bytes.
#[verifier::external_body]
pub(crate) fn big_from_bytes_be(bytes: &[u8]) -> (n: Natural)
    ensures
        canonical_le(n.le_bytes()),
        n@ == be_nat(bytes@),
{
    Natural { bytes: BigUint::from_bytes_be(bytes).to_bytes_le() }
}

/// `BigUint::from(u32)`.
#[verifier::external_body]
pub(crate) fn big_from_u32(value: u32) -> (n: Natural)
    ensures
        canonical_le(n.le_bytes()),
        n@ == value,
{
    Natural { bytes: BigUint::from(value).to_bytes_le() }
}

/// `num_traits::One::one` for `BigUint`.
#[verifier::external_body]
pub(crate) fn big_one() -> (n: Natural)
    ensures
        canonical_le(n.le_bytes()),
        n@ == 1,
{
    Natural { bytes: <BigUint as num_traits::One>::one().to_bytes_le() }
}

/// `BigUint::parse_bytes(text, 10)`: a non-empty string of decimal digits parses to its value.
#[verifier::external_body]
pub(crate) fn big_parse_decimal(text: &str) -> (n: Option<Natural>)
    ensures
        (text@.len() > 0 && all_decimal_digits(text@)) ==> n.is_some(),
        (text@.len() > 0 && all_decimal_digits(text@)) ==> n.unwrap()@ == decimal_value(text@),
        n matches Some(v) ==> canonical_le(v.le_bytes()),
{
    match BigUint::parse_bytes(text.as_bytes(), 10) {
        Some(v) => Some(Natural { bytes: v.to_bytes_le() }),
        None => None,
    }
}

/// `BigUint::modpow`: `base^exponent mod modulus`; it panics on a zero modulus.
#[verifier::external_body]
pub(crate) fn big_mod_pow(base: &Natural, exponent: &Natural, modulus: &Natural) -> (n: Natural)
    requires
        modulus@ > 0,
    ensures
        canonical_le(n.le_bytes()),
        n@ == pow(base@ as int, exponent@) % (modulus@ as int),
{
    let b = BigUint::from_bytes_le(&base.bytes);
    let e = BigUint::from_bytes_le(&exponent.bytes);
    let m = BigUint::from_bytes_le(&modulus.bytes);
    Natural { bytes: b.modpow(&e, &m).to_bytes_le() }
}

/// `BigUint * BigUint`.
#[verifier::external_body]
pub(crate) fn big_mul(a: &Natural, b: &Natural) -> (n: Natural)
    ensures
        canonical_le(n.le_bytes()),
        n@ == a@ * b@,
{
    Natural { bytes: (BigUint::from_bytes_le(&a.bytes) * BigUint::from_bytes_le(&b.bytes)).to_bytes_le() }
}

/// `BigUint + BigUint`.
#[verifier::external_body]
pub(crate) fn big_add(a: &Natural, b: &Natural) -> (n: Natural)
    ensures
        canonical_le(n.le_bytes()),
        n@ == a@ + b@,
{
    Natural { bytes: (BigUint::from_bytes_le(&a.bytes) + BigUint::from_bytes_le(&b.bytes)).to_bytes_le() }
}

/// `BigUint - BigUint`; it panics when the result would be negative.
#[verifier::external_body]
pub(crate) fn big_sub(a: &Natural, b: &Natural) -> (n: Natural)
    requires
        a@ >= b@,
    ensures
        canonical_le(n.le_bytes()),
        n@ == a@ - b@,
{
    Natural { bytes: (BigUint::from_bytes_le(&a.bytes) - BigUint::from_bytes_le(&b.bytes)).to_bytes_le() }
}

/// `BigUint % BigUint` (`Rem::rem`); it panics on a zero divisor.
#[verifier::external_body]
pub(crate) fn big_rem(a: &Natural, m: &Natural) -> (n: Natural)
    requires
        m@ > 0,
    ensures
        canonical_le(n.le_bytes()),
        n@ == a@ % m@,
{
    Natural { bytes: (BigUint::from_bytes_le(&a.bytes) % BigUint::from_bytes_le(&m.bytes)).to_bytes_le() }
}

/// `BigUint >= BigUint`.
#[verifier::external_body]
pub(crate) fn big_at_least(a: &Natural, b: &Natural) -> (r: bool)
    ensures
        r == (a@ >= b@),
{
    BigUint::from_bytes_le(&a.bytes) >= BigUint::from_bytes_le(&b.bytes)
}

/// `BigUint::to_u32_digits`: empty exactly for zero, and least significant digit first.
#[verifier::external_body]
pub(crate) fn big_u32_digits(a: &Natural) -> (digits: Vec<u32>)
    ensures
        digits.len() == 0 <==> a@ == 0,
        digits.len() > 0 ==> digits[0] == a@ % 0x1_0000_0000,
{
    BigUint::from_bytes_le(&a.bytes).to_u32_digits()
}

} // verus!
