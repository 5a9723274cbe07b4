//! Errors of the ElGamal layer.

use base64::DecodeError;
use vstd::prelude::*;

verus! {

/// Everything that can go wrong when generating keys, encrypting or decrypting.
#[derive(Debug)]
pub enum CryptoError {
    PrimeSetup,
    InvalidPrivateKey,
    InvalidCiphertext,
    Base64Decoding(DecodeError),
    RandomGenerationError,
    DecodeDecryptedMessage,
}

/// `text` is how the error `e` reads: a fixed sentence for each kind, and for a base64
/// failure a fixed prefix followed by the decoder's own description.
pub open spec fn crypto_error_reads_as(e: CryptoError, text: Seq<char>) -> bool {
    match e {
        CryptoError::PrimeSetup => text == "Failed to generate private key"@,
        CryptoError::InvalidPrivateKey => text == "Invalid private key"@,
        CryptoError::InvalidCiphertext => text == "Invalid ciphertext"@,
        CryptoError::Base64Decoding(_) => text.len() >= "Failed to decode string: "@.len() && text.take(
            "Failed to decode string: "@.len() as int,
        ) == "Failed to decode string: "@,
        CryptoError::RandomGenerationError => text == "Random number generation error"@,
        CryptoError::DecodeDecryptedMessage => text == "Failed to decode decrypted message"@,
    }
}

impl CryptoError {
    /// The message this error reads as.
    pub fn message(&self) -> (text: String)
        ensures
            crypto_error_reads_as(*self, text@),
    {
        match self {
            CryptoError::PrimeSetup => String::from_str("Failed to generate private key"),
            CryptoError::InvalidPrivateKey => String::from_str("Invalid private key"),
            CryptoError::InvalidCiphertext => String::from_str("Invalid ciphertext"),
            CryptoError::Base64Decoding(e) => {
                let prefix = String::from_str("Failed to decode string: ");
                let detail = decode_error_text(e);
                let text = prefix.concat(detail.as_str());
                assert(text@.take("Failed to decode string: "@.len() as int) =~= "Failed to decode string: "@);
                text
            },
            CryptoError::RandomGenerationError => String::from_str("Random number generation error"),
            CryptoError::DecodeDecryptedMessage => String::from_str("Failed to decode decrypted message"),
        }
    }
}

/// The `Display` text of a `base64::DecodeError`.
#[verifier::external_body]
fn decode_error_text(error: &DecodeError) -> String {
    format!("{}", error)
}

} // verus!
