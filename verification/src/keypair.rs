//! Key construction, ElGamal encryption and decryption of single numbers.

use crate::b64::{base64_decode, base64_encode, base64_length_fits, base64_standard, base64_standard_decoded};
use crate::errors::CryptoError;
use crate::natural::{
    big_add, big_at_least, big_from_u32, big_mod_pow, big_mul, big_one, big_parse_decimal, big_rem,
    big_sub, be_nat, canonical_le, le_nat, Natural,
};
use crate::prime_field::{
    decrypted_value, encrypts_with, group_prime, lemma_prime_digits, PRIME,
};
use crate::types::{Ciphertext, PrivateKey, PublicKey};
use ring::error::Unspecified;
use vstd::arithmetic::div_mod::lemma_mod_pos_bound;
use vstd::arithmetic::power::pow;
use vstd::prelude::*;

verus! {

/// `ring::error::Unspecified`, the error of the system random generator.
#[verifier::external_type_specification]
#[verifier::external_body]
pub struct ExUnspecified(Unspecified);

/// `ring::rand::generate` with `SystemRandom`: 32 bytes from the operating system's secure
/// generator, or its error. Nothing is promised of the bytes.
#[verifier::external_body]
fn system_random_bytes() -> (bytes: Result<[u8; 32], Unspecified>) {
    match ring::rand::generate::<[u8; 32]>(&ring::rand::SystemRandom::new()) {
        Ok(random) => Ok(random.expose()),
        Err(e) => Err(e),
    }
}

/// 32 bytes from the operating system's secure random generator.
pub fn get_secure_random_bytes() -> (bytes: Result<[u8; 32], CryptoError>)
    ensures
        bytes matches Err(e) ==> e is RandomGenerationError,
{
    match system_random_bytes() {
        Ok(b) => Ok(b),
        Err(_) => Err(CryptoError::RandomGenerationError),
    }
}

/// The group modulus, parsed from its decimal digits.
fn group_modulus() -> (p: Natural)
    ensures
        p@ == group_prime(),
{
    let parsed = big_parse_decimal(PRIME);
    proof {
        lemma_prime_digits();
    }
    parsed.unwrap()
}

impl PrivateKey {
    /// Create a new ElGamal private key from a given private key
    pub fn from(private_key: Natural) -> (key: Self)
        ensures
            key.private_key == private_key,
            key.is_group_key(),
            canonical_le(key.public_key.public_exponent.le_bytes()),
    {
        let prime = group_modulus();
        let generator = big_from_u32(2);
        let public_exponent = big_mod_pow(&generator, &private_key, &prime);
        let public_key = PublicKey { prime, generator, public_exponent };
        PrivateKey { private_key, public_key }
    }

    /// The key whose secret exponent is made of 32 random bytes read big-endian, reduced to
    /// lie strictly between 0 and `p - 1`.
    pub fn from_random_bytes(random: &[u8; 32]) -> (key: Self)
        ensures
            key.private_key@ == be_nat(random@) % ((group_prime() - 2) as nat) + 1,
            key.is_group_key(),
            0 < key.private_key@ < group_prime() - 1,
            canonical_le(key.public_key.public_exponent.le_bytes()),
    {
        let drawn = Natural::from_bytes_be(random);
        let prime = group_modulus();
        let two = big_from_u32(2);
        let range = big_sub(&prime, &two);
        let offset = big_rem(&drawn, &range);
        proof {
            lemma_mod_pos_bound(drawn@ as int, range@ as int);
        }
        let one = big_one();
        let exponent = big_add(&offset, &one);
        PrivateKey::from(exponent)
    }

    /// Generate a new ElGamal keypair whose secret exponent lies strictly between 0 and
    /// `p - 1`, drawn from the operating system's secure random generator.
    pub fn generate(bits: usize) -> (key: Result<Self, CryptoError>)
        ensures
            key matches Ok(k) ==> k.is_group_key() && 0 < k.private_key@ < group_prime() - 1,
            key matches Err(e) ==> e is RandomGenerationError,
    {
        let random = match get_secure_random_bytes() {
            Ok(bytes) => bytes,
            Err(e) => return Err(e),
        };
        Ok(PrivateKey::from_random_bytes(&random))
    }

    /// Export the private key as a base64-encoded string
    pub fn get_encoded_private_key(&self) -> (text: String)
        requires
            base64_length_fits(self.private_key.le_bytes().len()),
        ensures
            text@ == base64_standard(self.private_key.le_bytes()),
            base64_standard_decoded(text@) == Some(self.private_key.le_bytes()),
    {
        let bytes = self.private_key.to_bytes_le();
        base64_encode(bytes.as_slice())
    }

    /// Decrypt an ElGamal ciphertext: `c2 * s^(p-2) mod p` with `s = c1^x mod p`.
    pub fn decrypt(&self, ciphertext: &Ciphertext) -> (m: Result<Natural, CryptoError>)
        requires
            self.public_key.well_formed(),
        ensures
            m matches Ok(v) && v@ == decrypted_value(
                self.public_key.prime@,
                self.private_key@,
                ciphertext.c1@,
                ciphertext.c2@,
            ),
    {
        let prime = &self.public_key.prime;
        let s = big_mod_pow(&ciphertext.c1, &self.private_key, prime);
        let two = big_from_u32(2);
        let inverse_exponent = big_sub(prime, &two);
        let s_inv = big_mod_pow(&s, &inverse_exponent, prime);
        let product = big_mul(&ciphertext.c2, &s_inv);
        let m = big_rem(&product, prime);
        Ok(m)
    }

    /// Import a private key from the base64 text of its little-endian bytes.
    pub fn try_from(value: &str) -> (key: Result<Self, CryptoError>)
        ensures
            key matches Ok(k) ==> Some(k.private_key@) == imported_secret(value@),
            base64_standard_decoded(value@) is None ==> (key matches Err(e) && e is Base64Decoding),
            base64_standard_decoded(value@) matches Some(bytes) ==> (key matches Ok(k)
                && k.is_group_key() && k.private_key@ == le_nat(bytes) && canonical_le(
                k.public_key.public_exponent.le_bytes(),
            )),
    {
        match base64_decode(value) {
            Ok(decoded) => Ok(PrivateKey::from(Natural::from_bytes_le(decoded.as_slice()))),
            Err(e) => Err(CryptoError::Base64Decoding(e)),
        }
    }
}

impl PublicKey {
    /// Encrypt a message using ElGamal encryption: `(g^y mod p, m * h^y mod p)` for a
    /// random `y < p - 1`. Messages not below the modulus are refused.
    pub fn encrypt(&self, message: &Natural) -> (ciphertext: Result<Ciphertext, CryptoError>)
        requires
            self.well_formed() || message@ >= self.prime@,
        ensures
            message@ >= self.prime@ <==> (ciphertext matches Err(e) && e is InvalidCiphertext),
            ciphertext matches Err(e) ==> e is InvalidCiphertext || e is RandomGenerationError,
            ciphertext matches Ok(c) ==> self.is_encryption_of(message@, c),
            ciphertext matches Ok(c) ==> canonical_le(c.c1.le_bytes()) && canonical_le(c.c2.le_bytes()),
            ciphertext matches Ok(c) ==> exists|random: Seq<u8>|
                random.len() == 32 && #[trigger] encrypts_with(
                    self.prime@,
                    self.generator@,
                    self.public_exponent@,
                    message@,
                    be_nat(random) % ((self.prime@ - 1) as nat),
                    c.c1@,
                    c.c2@,
                ),
    {
        if big_at_least(message, &self.prime) {
            return Err(CryptoError::InvalidCiphertext);
        }
        let draw = get_secure_random_bytes();
        let result = self.encrypt_with_draw(message, draw);
        proof {
            if result is Ok {
                let c = result->Ok_0;
                let random = draw->Ok_0@;
                assert(encrypts_with(
                    self.prime@,
                    self.generator@,
                    self.public_exponent@,
                    message@,
                    be_nat(random) % ((self.prime@ - 1) as nat),
                    c.c1@,
                    c.c2@,
                ));
            }
        }
        result
    }

    /// Encrypts `message` with what a draw of 32 random bytes gave. A message not below the
    /// modulus is refused, whatever the draw gave; below it, a failed draw's error is
    /// passed on, and drawn bytes always give the ciphertext that `encrypt_with_random`
    /// makes of them.
    pub fn encrypt_with_draw(&self, message: &Natural, draw: Result<[u8; 32], CryptoError>) -> (ciphertext:
        Result<Ciphertext, CryptoError>)
        requires
            self.well_formed() || message@ >= self.prime@,
        ensures
            message@ >= self.prime@ ==> (ciphertext matches Err(e) && e is InvalidCiphertext),
            message@ < self.prime@ ==> match draw {
                Err(e) => ciphertext == Err::<Ciphertext, CryptoError>(e),
                Ok(random) => ciphertext matches Ok(c) && encrypts_with(
                    self.prime@,
                    self.generator@,
                    self.public_exponent@,
                    message@,
                    be_nat(random@) % ((self.prime@ - 1) as nat),
                    c.c1@,
                    c.c2@,
                ) && self.is_encryption_of(message@, c) && canonical_le(c.c1.le_bytes())
                    && canonical_le(c.c2.le_bytes()),
            },
    {
        if big_at_least(message, &self.prime) {
            return Err(CryptoError::InvalidCiphertext);
        }
        match draw {
            Ok(random) => {
                let result = self.encrypt_with_random(message, &random);
                assert(self.is_encryption_of(message@, result));
                Ok(result)
            },
            Err(e) => Err(e),
        }
    }

    /// The ciphertext of `message` for the ephemeral exponent made of 32 random bytes read
    /// big-endian and reduced modulo `p - 1`: `(g^y mod p, m * h^y mod p)`.
    pub fn encrypt_with_random(&self, message: &Natural, random: &[u8; 32]) -> (ciphertext: Ciphertext)
        requires
            self.well_formed(),
        ensures
            encrypts_with(
                self.prime@,
                self.generator@,
                self.public_exponent@,
                message@,
                be_nat(random@) % ((self.prime@ - 1) as nat),
                ciphertext.c1@,
                ciphertext.c2@,
            ),
            be_nat(random@) % ((self.prime@ - 1) as nat) < self.prime@ - 1,
            canonical_le(ciphertext.c1.le_bytes()),
            canonical_le(ciphertext.c2.le_bytes()),
    {
        let drawn = Natural::from_bytes_be(random);
        let one = big_one();
        let range = big_sub(&self.prime, &one);
        let y = big_rem(&drawn, &range);
        proof {
            lemma_mod_pos_bound(drawn@ as int, range@ as int);
        }
        let c1 = big_mod_pow(&self.generator, &y, &self.prime);
        let s = big_mod_pow(&self.public_exponent, &y, &self.prime);
        let product = big_mul(message, &s);
        let c2 = big_rem(&product, &self.prime);
        Ciphertext { c1, c2 }
    }

    /// Export the public key as a base64-encoded string
    pub fn get_encoded_public_key(&self) -> (text: String)
        requires
            base64_length_fits(self.public_exponent.le_bytes().len()),
        ensures
            text@ == base64_standard(self.public_exponent.le_bytes()),
    {
        let bytes = self.public_exponent.to_bytes_le();
        base64_encode(bytes.as_slice())
    }
}

/// The secret exponent that importing `text` gives: the number its base64 bytes denote,
/// read little-endian, or `None` where the text is not base64.
pub open spec fn imported_secret(text: Seq<char>) -> Option<nat> {
    match base64_standard_decoded(text) {
        Some(bytes) => Some(le_nat(bytes)),
        None => None,
    }
}

/// Importing the text a key was exported as gives back the key's secret exponent.
pub proof fn lemma_exported_key_imports_back(key: PrivateKey, text: Seq<char>)
    requires
        base64_standard_decoded(text) == Some(key.private_key.le_bytes()),
    ensures
        imported_secret(text) == Some(key.private_key@),
{
    key.private_key.lemma_value_of_bytes();
}

/// A key imported from the text another key was exported as is that key again: the same
/// secret exponent, and a public key with the same modulus, generator and public exponent.
pub proof fn lemma_export_import_gives_same_key(key: PrivateKey, text: Seq<char>, imported: PrivateKey)
    requires
        key.is_group_key(),
        base64_standard_decoded(text) == Some(key.private_key.le_bytes()),
        imported.is_group_key(),
        Some(imported.private_key@) == imported_secret(text),
    ensures
        imported.private_key@ == key.private_key@,
        imported.public_key.prime@ == key.public_key.prime@,
        imported.public_key.generator@ == key.public_key.generator@,
        imported.public_key.public_exponent@ == key.public_key.public_exponent@,
{
    lemma_exported_key_imports_back(key, text);
}

} // verus!
