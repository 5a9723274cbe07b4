//! ElGamal keys and ciphertexts.

use crate::natural::Natural;
use crate::prime_field::{encrypts_with, group_prime};
use vstd::arithmetic::power::pow;
use vstd::prelude::*;

verus! {

/// ElGamal public key.
#[derive(Debug, Clone)]
pub struct PublicKey {
    /// Large prime number
    pub prime: Natural,
    /// Generator of the multiplicative group
    pub generator: Natural,
    /// g^x mod p, where x is the private key
    pub public_exponent: Natural,
}

/// ElGamal private key.
#[derive(Debug, Clone)]
pub struct PrivateKey {
    /// Secret exponent
    pub private_key: Natural,
    /// Associated public key
    pub public_key: PublicKey,
}

/// ElGamal ciphertext.
#[derive(Debug, Clone)]
pub struct Ciphertext {
    /// Ephemeral key: g^y
    pub c1: Natural,
    /// Encrypted message: h^y * m
    pub c2: Natural,
}

impl PublicKey {
    /// The modulus is large enough for encryption and decryption to be defined.
    pub open spec fn well_formed(&self) -> bool {
        self.prime@ >= 2
    }

    /// `(c1, c2)` encrypts `m` under this key for some ephemeral exponent `y < p - 1`.
    pub open spec fn encrypts(&self, m: nat, c1: nat, c2: nat) -> bool {
        exists|y: nat|
            y < self.prime@ - 1 && #[trigger] encrypts_with(
                self.prime@,
                self.generator@,
                self.public_exponent@,
                m,
                y,
                c1,
                c2,
            )
    }

    /// `ciphertext` is an encryption of `m` under this key.
    pub open spec fn is_encryption_of(&self, m: nat, ciphertext: Ciphertext) -> bool {
        self.encrypts(m, ciphertext.c1@, ciphertext.c2@)
    }
}

impl PrivateKey {
    /// This key belongs to the library's group: modulus `group_prime()`, generator 2, and
    /// public exponent `2^x mod p` for the secret exponent `x`.
    pub open spec fn is_group_key(&self) -> bool {
        &&& self.public_key.prime@ == group_prime()
        &&& self.public_key.generator@ == 2
        &&& self.public_key.public_exponent@ == pow(2, self.private_key@) % (group_prime() as int)
    }
}

} // verus!
