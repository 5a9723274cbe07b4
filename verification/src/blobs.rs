//! What the user API does with a user's keys and blobs: encrypting an uploaded blob and
//! showing a stored one.

use crate::b64::{base64_encode, base64_length_fits, base64_standard, base64_standard_decoded};
use crate::codec::{chunk_words, lemma_chunk_words_bound, word_bytes, word_count};
use crate::digest::{content_hash, lower_hex, sha256_of};
use crate::elgamal::{
    decrypt, decryption_outcome, decrypts_to_nonzero, encrypt, is_blob_encryption,
    words_below_modulus,
};
use crate::errors::CryptoError;
use crate::natural::{canonical_le, lemma_canonical_length, le_nat};
use crate::prime_field::{group_prime, lemma_prime_size};
use crate::types::PrivateKey;
use vstd::prelude::*;
use vstd::utf8::encode_utf8;

verus! {

/// A user's key pair: the private key imported from its stored text, and the base64 text
/// of its public exponent, under which the user's blobs are filed.
pub struct UserKeys {
    key: PrivateKey,
    public_key: String,
}

impl UserKeys {
    #[verifier::type_invariant]
    spec fn consistent(&self) -> bool {
        &&& self.key.is_group_key()
        &&& canonical_le(self.key.public_key.public_exponent.le_bytes())
        &&& self.public_key@ == base64_standard(self.key.public_key.public_exponent.le_bytes())
    }

    /// The private key.
    pub closed spec fn private_key(&self) -> PrivateKey {
        self.key
    }

    /// The base64 text of the public exponent.
    pub closed spec fn public_key_text(&self) -> Seq<char> {
        self.public_key@
    }

    /// Imports the keys of a user from the base64 text of the private key's little-endian
    /// bytes, as stored with the user.
    pub fn import(stored: &str) -> (keys: Result<UserKeys, CryptoError>)
        ensures
            base64_standard_decoded(stored@) is None ==> (keys matches Err(e) && e is Base64Decoding),
            base64_standard_decoded(stored@) matches Some(bytes) ==> (keys matches Ok(k)
                && k.private_key().is_group_key() && k.private_key().private_key@ == le_nat(bytes)
                && k.public_key_text() == base64_standard(
                k.private_key().public_key.public_exponent.le_bytes(),
            )),
    {
        let key = match PrivateKey::try_from(stored) {
            Ok(k) => k,
            Err(e) => return Err(e),
        };
        proof {
            lemma_prime_size();
            key.public_key.public_exponent.lemma_value_of_bytes();
            lemma_canonical_length(key.public_key.public_exponent.le_bytes(), 32);
        }
        let public_key = key.public_key.get_encoded_public_key();
        Ok(UserKeys { key, public_key })
    }

    /// The private key.
    pub fn key(&self) -> (key: &PrivateKey)
        ensures
            *key == self.private_key(),
            key.is_group_key(),
    {
        proof {
            use_type_invariant(self);
        }
        &self.key
    }

    /// The base64 text of the public exponent.
    pub fn public_key(&self) -> (text: &String)
        ensures
            text@ == self.public_key_text(),
            text@ == base64_standard(self.private_key().public_key.public_exponent.le_bytes()),
    {
        proof {
            use_type_invariant(self);
        }
        &self.public_key
    }

    /// Encrypts the content of a new blob for this user: the encrypted blob, its size in
    /// bytes, the hash it is stored and checked under, and the public key it is filed under.
    pub fn encrypt_blob(&self, content: &str) -> (blob: Result<PreparedBlob, CryptoError>)
        ensures
            blob matches Ok(b) ==> {
                &&& is_blob_encryption(self.private_key().public_key, encode_utf8(content@), b.content@)
                &&& b.size == b.content@.len() as i64
                &&& b.hash@ == lower_hex(sha256_of(b.content@))
                &&& b.public_key@ == self.public_key_text()
            },
            blob matches Err(e) ==> e is RandomGenerationError,
            content@.len() == 0 ==> (blob matches Ok(b) && b.content@ == word_bytes(0)),
    {
        proof {
            use_type_invariant(self);
        }
        let plaintext = content.as_bytes();
        proof {
            lemma_prime_size();
            assert forall|i: int| 0 <= i < word_count(plaintext@.len()) implies #[trigger] chunk_words(
                plaintext@,
            )[i] < self.key.public_key.prime@ by {
                lemma_chunk_words_bound(plaintext@, i);
            }
            assert(words_below_modulus(self.key.public_key, plaintext@));
        }
        let content = match encrypt(plaintext, &self.key) {
            Ok(data) => data,
            Err(e) => return Err(e),
        };
        let size = content.len() as i64;
        let hash = content_hash(content.as_slice());
        Ok(PreparedBlob { content, size, hash, public_key: self.public_key.clone() })
    }

    /// What a user is shown of a stored blob: its decrypted text when it is filed under
    /// this user's public key, its base64 text otherwise.
    pub fn blob_content(&self, blob_public_key: &String, content: Vec<u8>) -> (shown: Result<String, CryptoError>)
        requires
            base64_length_fits(content@.len()),
        ensures
            blob_public_key@ == self.public_key_text() && decrypts_to_nonzero(
                self.private_key(),
                content@,
            ) ==> decryption_outcome(self.private_key(), content@, shown),
            blob_public_key@ == self.public_key_text() && !decrypts_to_nonzero(
                self.private_key(),
                content@,
            ) ==> (shown matches Err(e) && e is InvalidCiphertext),
            blob_public_key@ != self.public_key_text() ==> (shown matches Ok(s) && s@
                == base64_standard(content@)),
    {
        proof {
            use_type_invariant(self);
        }
        if *blob_public_key == self.public_key {
            decrypt(content, &self.key)
        } else {
            Ok(base64_encode(content.as_slice()))
        }
    }
}

/// A blob ready to be stored: its encrypted content, size, hash and owner's public key.
pub struct PreparedBlob {
    pub content: Vec<u8>,
    pub size: i64,
    pub hash: String,
    pub public_key: String,
}

/// The base64 text under which a stored blob's content is shown when it is not decrypted.
pub fn encoded_content(content: &[u8]) -> (text: String)
    requires
        base64_length_fits(content@.len()),
    ensures
        text@ == base64_standard(content@),
{
    base64_encode(content)
}

} // verus!
