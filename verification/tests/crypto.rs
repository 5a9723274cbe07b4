use da_node::elgamal::{decrypt, decrypt_checked, encrypt};
use da_node::errors::CryptoError;
use da_node::keypair::get_secure_random_bytes;
use da_node::natural::Natural;
use da_node::types::PrivateKey;

use fake::{Fake, Faker};
use num_bigint::BigUint;
use rand::distr::Alphanumeric;
use rand::{rng, Rng};

fn random_string(len: usize) -> String {
    rng()
        .sample_iter(&Alphanumeric)
        .take(len)
        .map(char::from)
        .collect()
}

fn big(n: &Natural) -> BigUint {
    BigUint::from_bytes_le(&n.to_bytes_le())
}

fn natural(n: &BigUint) -> Natural {
    Natural::from_bytes_le(&n.to_bytes_le())
}

fn new_key() -> PrivateKey {
    PrivateKey::generate(512).unwrap()
}

fn encrypt_text(text: &str, key: &PrivateKey) -> Vec<u8> {
    encrypt(text.as_bytes(), key).unwrap()
}

#[test]
fn test_empty_string() {
    let private_key = new_key();
    let empty = String::new();

    let encrypted = encrypt_text(&empty, &private_key);
    let decrypted = decrypt(encrypted, &private_key).unwrap();

    assert_eq!(empty, decrypted);
}

#[test]
fn test_short_string() {
    let private_key = new_key();
    let message: String = Faker.fake();

    let encrypted = encrypt_text(&message, &private_key);
    let decrypted = decrypt(encrypted, &private_key).unwrap();

    assert_eq!(message, decrypted);
}

#[test]
fn test_long_string() {
    let private_key = new_key();
    let message = random_string(1000);

    let encrypted = encrypt_text(&message, &private_key);
    let decrypted = decrypt(encrypted, &private_key).unwrap();

    assert_eq!(message, decrypted);
}

#[test]
fn test_unicode_string() {
    let private_key = new_key();
    let message = "Hello, 世界! 😊 UTF-8 test ñáéíóú".to_string();

    let encrypted = encrypt_text(&message, &private_key);
    let decrypted = decrypt(encrypted, &private_key).unwrap();

    assert_eq!(message, decrypted);
}

#[test]
fn test_invalid_ciphertext() {
    let private_key = new_key();

    let result = decrypt(vec![1, 2, 3], &private_key);
    assert!(matches!(result, Err(CryptoError::InvalidCiphertext)));

    let mut invalid = vec![0, 0, 0, 1]; // 1 ciphertext
    invalid.extend_from_slice(&[0, 0, 0, 0]); // c1_len = 0

    let result = decrypt(invalid, &private_key);
    assert!(matches!(result, Err(CryptoError::InvalidCiphertext)));
}

#[test]
fn test_different_keys() {
    let key1 = new_key();
    let key2 = new_key();
    let message: String = Faker.fake();

    let encrypted = encrypt_text(&message, &key1);

    let result = decrypt(encrypted.clone(), &key2);

    if let Ok(decrypted) = result {
        assert_ne!(
            message, decrypted,
            "Decryption with wrong key should not work"
        );
    }

    let correct = decrypt(encrypted, &key1).unwrap();
    assert_eq!(message, correct);
}

#[test]
fn test_corrupted_data() {
    let private_key = new_key();
    let message: String = Faker.fake();

    let mut encrypted = encrypt_text(&message, &private_key);

    if encrypted.len() > 10 {
        encrypted[10] ^= 0xFF; // Flip all bits at position 10

        if let Ok(decrypted) = decrypt(encrypted, &private_key) {
            assert_ne!("Important data", decrypted)
        }
    }
}

#[test]
fn test_with_fake_data() {
    let private_key = new_key();

    for _ in 0..10 {
        let sentence: String = Faker.fake();

        let encrypted = encrypt_text(&sentence, &private_key);
        let decrypted = decrypt(encrypted, &private_key).unwrap();

        assert_eq!(sentence, decrypted);
    }
}

#[test]
fn test_serialization_format() {
    let private_key = new_key();
    let message = "Test".to_string();

    let encrypted = encrypt_text(&message, &private_key);

    assert!(encrypted.len() >= 4, "Encrypted data too short");

    let count = u32::from_le_bytes([encrypted[0], encrypted[1], encrypted[2], encrypted[3]]);
    assert!(count > 0, "Count should be positive");

    let mut offset = 4;
    for _ in 0..count {
        if offset + 8 > encrypted.len() {
            panic!("Data format invalid: premature end");
        }

        let c1_len = u32::from_le_bytes([
            encrypted[offset],
            encrypted[offset + 1],
            encrypted[offset + 2],
            encrypted[offset + 3],
        ]) as usize;
        offset += 4;

        if offset + c1_len + 4 > encrypted.len() {
            panic!("Data format invalid: c1_len too large");
        }

        offset += c1_len;

        let c2_len = u32::from_le_bytes([
            encrypted[offset],
            encrypted[offset + 1],
            encrypted[offset + 2],
            encrypted[offset + 3],
        ]) as usize;
        offset += 4;

        if offset + c2_len > encrypted.len() {
            panic!("Data format invalid: c2_len too large");
        }

        offset += c2_len;
    }

    assert_eq!(offset, encrypted.len(), "Format invalid: leftover bytes");
}

#[test]
fn test_key_generation() {
    let private_key = PrivateKey::generate(512).unwrap();

    let prime = big(&private_key.public_key.prime);
    let generator = big(&private_key.public_key.generator);
    let secret = big(&private_key.private_key);

    assert_eq!(
        big(&private_key.public_key.public_exponent),
        generator.modpow(&secret, &prime)
    );

    assert!(secret > BigUint::from(0u32));
    assert!(secret < prime.clone() - BigUint::from(1u32));
}

#[test]
fn test_encrypt_decrypt_roundtrip() {
    let private_key = PrivateKey::generate(512).unwrap();
    let public_key = private_key.public_key.clone();

    for i in 1..100 {
        let message = Natural::from_u32(i as u32);
        let ciphertext = public_key.encrypt(&message).unwrap();
        let decrypted = private_key.decrypt(&ciphertext).unwrap();

        assert_eq!(message, decrypted, "Failed on message: {}", i);
    }
}

#[test]
fn test_encrypt_large_message_fails() {
    let private_key = PrivateKey::generate(512).unwrap();
    let public_key = private_key.public_key.clone();

    let message = natural(&(big(&public_key.prime) + BigUint::from(1u32)));
    let result = public_key.encrypt(&message);

    assert!(result.is_err());
    assert!(matches!(
        result.unwrap_err(),
        CryptoError::InvalidCiphertext
    ));
}

#[test]
fn test_secure_random_bytes() {
    let bytes1 = get_secure_random_bytes().unwrap();
    let bytes2 = get_secure_random_bytes().unwrap();

    assert_ne!(bytes1, bytes2, "Secure random bytes should be different");
    assert_eq!(bytes1.len(), 32, "Should generate 32 bytes");
}

#[test]
fn test_different_keys_produce_different_ciphertexts() {
    let key1 = PrivateKey::generate(512).unwrap();
    let key2 = PrivateKey::generate(512).unwrap();

    let message = Natural::from_u32(42);

    let ciphertext1 = key1.public_key.encrypt(&message).unwrap();
    let ciphertext2 = key2.public_key.encrypt(&message).unwrap();

    assert_ne!(ciphertext1.c1, ciphertext2.c1);
    assert_ne!(ciphertext1.c2, ciphertext2.c2);
}

#[test]
fn test_export_import_private_key() {
    let key1 = PrivateKey::generate(512).unwrap();
    let key2 = PrivateKey::try_from(key1.get_encoded_private_key().as_str()).unwrap();

    assert_eq!(key1.private_key, key2.private_key);
}

#[test]
fn test_encrypt_decrypt() {
    let private_key = PrivateKey::generate(512).unwrap();
    let message = "Hello, ElGamal encryption!".to_string();

    let encrypted = encrypt(message.as_bytes(), &private_key).unwrap();
    let decrypted = decrypt(encrypted, &private_key).unwrap();

    assert_eq!(message, decrypted);
}

#[test]
fn group_modulus_is_the_bn254_prime() {
    let key = PrivateKey::from(Natural::from_u32(5));
    let expected = BigUint::parse_bytes(
        b"21888242871839275222246405745257275088696311157297823662689037894645226208583",
        10,
    )
    .unwrap();
    assert_eq!(big(&key.public_key.prime), expected);
    assert_eq!(big(&key.public_key.generator), BigUint::from(2u32));
    assert_eq!(big(&key.public_key.public_exponent), BigUint::from(32u32));
}

#[test]
fn trailing_nul_bytes_do_not_survive() {
    let key = new_key();
    let encrypted = encrypt("ab\0".as_bytes(), &key).unwrap();
    assert_eq!(decrypt(encrypted, &key).unwrap(), "ab");
}

#[test]
fn blob_layout_for_two_words() {
    let key = new_key();
    let encrypted = encrypt(b"hello", &key).unwrap();
    let count = u32::from_le_bytes([encrypted[0], encrypted[1], encrypted[2], encrypted[3]]);
    assert_eq!(count, 2);
}

#[test]
fn checked_decryption_matches_decryption() {
    let key = new_key();
    let encrypted = encrypt(b"checked", &key).unwrap();
    assert_eq!(
        decrypt_checked(encrypted.clone(), &key).unwrap().unwrap(),
        decrypt(encrypted, &key).unwrap()
    );
    assert!(matches!(
        decrypt_checked(vec![9, 9], &key),
        Some(Err(CryptoError::InvalidCiphertext))
    ));
}

#[test]
fn non_utf8_plaintext_is_refused() {
    let key = new_key();
    let encrypted = encrypt(&[0xff, 0xfe], &key).unwrap();
    assert!(matches!(
        decrypt(encrypted, &key),
        Err(CryptoError::DecodeDecryptedMessage)
    ));
}

#[test]
fn bad_base64_key_is_refused() {
    assert!(matches!(
        PrivateKey::try_from("not base64!"),
        Err(CryptoError::Base64Decoding(_))
    ));
}

#[test]
fn key_from_random_bytes_is_reduced_into_range() {
    let zeros = PrivateKey::from_random_bytes(&[0u8; 32]);
    assert_eq!(big(&zeros.private_key), BigUint::from(1u32));
    let ones = PrivateKey::from_random_bytes(&[0xffu8; 32]);
    let prime = big(&ones.public_key.prime);
    let expected = BigUint::from_bytes_be(&[0xffu8; 32]) % (prime.clone() - 2u32) + 1u32;
    assert_eq!(big(&ones.private_key), expected);
    assert_eq!(
        big(&ones.public_key.public_exponent),
        BigUint::from(2u32).modpow(&expected, &prime)
    );
}

#[test]
fn encryption_with_given_random_bytes() {
    let key = PrivateKey::from(Natural::from_u32(7));
    let message = Natural::from_u32(42);
    // an exponent of zero sends (1, m)
    let plain = key.public_key.encrypt_with_random(&message, &[0u8; 32]);
    assert_eq!(big(&plain.c1), BigUint::from(1u32));
    assert_eq!(big(&plain.c2), BigUint::from(42u32));

    let mut random = [0u8; 32];
    random[31] = 3;
    let c = key.public_key.encrypt_with_random(&message, &random);
    let prime = big(&key.public_key.prime);
    assert_eq!(big(&c.c1), BigUint::from(8u32));
    let h = big(&key.public_key.public_exponent);
    assert_eq!(big(&c.c2), (BigUint::from(42u32) * h.modpow(&BigUint::from(3u32), &prime)) % &prime);
    assert_eq!(key.decrypt(&c).unwrap(), message);
}

#[test]
fn empty_plaintext_encrypts_to_a_bare_count() {
    let key = PrivateKey::from(Natural::from_u32(5));
    let encrypted = encrypt(b"", &key).unwrap();
    assert_eq!(encrypted, vec![0u8, 0, 0, 0]);
    assert_eq!(decrypt(encrypted, &key).unwrap(), String::new());
}

#[test]
fn entry_decrypting_to_zero_is_an_invalid_ciphertext() {
    let key = PrivateKey::from(Natural::from_u32(5));
    // one entry: c1 = 1, c2 = 0, which decrypts to 0
    let forged = vec![1, 0, 0, 0, 1, 0, 0, 0, 1, 1, 0, 0, 0, 0];
    assert!(matches!(decrypt(forged.clone(), &key), Err(CryptoError::InvalidCiphertext)));
    assert!(decrypt_checked(forged, &key).is_none());
}

fn bogus_key() -> PrivateKey {
    PrivateKey {
        private_key: Natural::from_u32(3),
        public_key: da_node::types::PublicKey {
            prime: Natural::from_u32(0),
            generator: Natural::from_u32(2),
            public_exponent: Natural::from_u32(8),
        },
    }
}

#[test]
fn inputs_that_never_touch_the_key() {
    let key = bogus_key();
    assert!(matches!(
        key.public_key.encrypt(&Natural::from_u32(3)),
        Err(CryptoError::InvalidCiphertext)
    ));
    assert_eq!(encrypt(b"", &key).unwrap(), vec![0u8, 0, 0, 0]);
    assert_eq!(decrypt(vec![0, 0, 0, 0], &key).unwrap(), "");
    assert!(matches!(decrypt(vec![5, 0], &key), Err(CryptoError::InvalidCiphertext)));
}
