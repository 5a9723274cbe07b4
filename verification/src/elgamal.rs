//! Encryption of whole byte strings: the plaintext is cut into 32-bit words, each word is
//! encrypted on its own, and the ciphertexts are written as one blob.

use crate::codec::{
    chunk_words, copy_range, entries_bytes, entry_bytes, frame_bytes, lemma_entries_bytes_push,
    lemma_word_bytes_low_bits, parse_entries, parse_frame, push_bytes, push_word, read_word,
    read_word_at, split_words, strip_trailing_zeros, strip_zeros, word_bytes, word_count,
    words_bytes, words_to_bytes,
};
use crate::errors::CryptoError;
use crate::keypair::get_secure_random_bytes;
use crate::natural::{be_nat, big_u32_digits, canonical_le, le_nat, Natural};
use crate::codec::{fits_frame, lemma_chunk_roundtrip_trimmed, lemma_chunk_words_bound, lemma_frame_roundtrip};
use crate::natural::lemma_canonical_length;
use crate::prime_field::{
    decrypted_value, encrypts_with, group_prime, lemma_decryption_undoes_encryption, lemma_prime_size,
};
use vstd::arithmetic::power::pow;
use crate::text::utf8_to_string;
use crate::types::{Ciphertext, PrivateKey, PublicKey};
use vstd::prelude::*;
use vstd::utf8::{decode_utf8, encode_utf8, valid_utf8};

verus! {

/// The entries hold, in order, an encryption of each word under `key`, each number
/// written as `BigUint::to_bytes_le` writes it.
pub open spec fn entries_encrypt(
    key: PublicKey,
    words: Seq<nat>,
    entries: Seq<(Seq<u8>, Seq<u8>)>,
) -> bool {
    &&& entries.len() == words.len()
    &&& forall|i: int|
        0 <= i < entries.len() ==> {
            &&& canonical_le(#[trigger] entries[i].0)
            &&& canonical_le(entries[i].1)
            &&& key.encrypts(words[i], le_nat(entries[i].0), le_nat(entries[i].1))
        }
}

/// `data` is a blob that encrypts the plaintext `input` under `key`.
pub open spec fn is_blob_encryption(key: PublicKey, input: Seq<u8>, data: Seq<u8>) -> bool {
    exists|entries: Seq<(Seq<u8>, Seq<u8>)>|
        #[trigger] entries_encrypt(key, chunk_words(input), entries) && data == frame_bytes(entries)
}

/// Every word of the plaintext is below the key's modulus, so that each can be encrypted.
pub open spec fn words_below_modulus(key: PublicKey, input: Seq<u8>) -> bool {
    forall|i: int| 0 <= i < word_count(input.len()) ==> #[trigger] chunk_words(input)[i] < key.prime@
}

/// The words that decryption recovers from the entries: each decrypted number, cut to its
/// lowest 32-bit digit.
pub open spec fn decrypted_words(key: PrivateKey, entries: Seq<(Seq<u8>, Seq<u8>)>) -> Seq<nat> {
    Seq::new(
        entries.len(),
        |i: int|
            decrypted_value(
                key.public_key.prime@,
                key.private_key@,
                le_nat(entries[i].0),
                le_nat(entries[i].1),
            ) % 0x1_0000_0000,
    )
}

/// The plaintext bytes that decryption recovers from the entries.
pub open spec fn plaintext_bytes(key: PrivateKey, entries: Seq<(Seq<u8>, Seq<u8>)>) -> Seq<u8> {
    strip_trailing_zeros(words_bytes(decrypted_words(key, entries)))
}

/// Every entry of the blob decrypts to a non-zero number, which decryption needs to read
/// its lowest digit.
pub open spec fn decrypts_to_nonzero(key: PrivateKey, data: Seq<u8>) -> bool {
    parse_frame(data) matches Some(parsed) ==> forall|i: int|
        0 <= i < parsed.0.len() ==> decrypted_value(
            key.public_key.prime@,
            key.private_key@,
            le_nat(#[trigger] parsed.0[i].0),
            le_nat(parsed.0[i].1),
        ) != 0
}

/// The entries hold, in order, the encryption of each word under `key` with the ephemeral
/// exponent made of the bytes drawn for that word, read big-endian and reduced modulo
/// `p - 1`; each number is written as `BigUint::to_bytes_le` writes it.
pub open spec fn entries_encrypt_with(
    key: PublicKey,
    words: Seq<nat>,
    randoms: Seq<[u8; 32]>,
    entries: Seq<(Seq<u8>, Seq<u8>)>,
) -> bool {
    &&& entries.len() == words.len()
    &&& randoms.len() == words.len()
    &&& forall|i: int|
        0 <= i < entries.len() ==> {
            &&& canonical_le(#[trigger] entries[i].0)
            &&& canonical_le(entries[i].1)
            &&& encrypts_with(
                key.prime@,
                key.generator@,
                key.public_exponent@,
                words[i],
                be_nat(randoms[i]@) % ((key.prime@ - 1) as nat),
                le_nat(entries[i].0),
                le_nat(entries[i].1),
            )
        }
}

/// `data` is the blob that encrypts the plaintext `input` under `key` with `randoms`, the
/// bytes drawn for its words in order.
pub open spec fn is_drawn_blob_encryption(
    key: PublicKey,
    input: Seq<u8>,
    randoms: Seq<[u8; 32]>,
    data: Seq<u8>,
) -> bool {
    exists|entries: Seq<(Seq<u8>, Seq<u8>)>|
        #[trigger] entries_encrypt_with(key, chunk_words(input), randoms, entries) && data == frame_bytes(
            entries,
        )
}

/// Encrypt a string using ElGamal encryption.
///
/// The string is split into u32 chunks and each chunk is encrypted with 32 bytes drawn
/// from the system's secure random generator. The blob holds the number of chunks, then
/// for each chunk the length and bytes of `c1` and of `c2`, every length a 32-bit
/// little-endian number.
pub fn encrypt(input: &[u8], private_key: &PrivateKey) -> (data: Result<Vec<u8>, CryptoError>)
    requires
        private_key.public_key.well_formed() || input@.len() == 0,
        words_below_modulus(private_key.public_key, input@),
    ensures
        data matches Ok(d) ==> is_blob_encryption(private_key.public_key, input@, d@),
        data matches Ok(d) ==> exists|drawn: Seq<[u8; 32]>|
            #[trigger] is_drawn_blob_encryption(private_key.public_key, input@, drawn, d@),
        data matches Err(e) ==> e is RandomGenerationError,
        input@.len() == 0 ==> (data matches Ok(d) && d@ == word_bytes(0)),
{
    let needed: usize = if input.len() % 4 == 0 { input.len() / 4 } else { input.len() / 4 + 1 };
    let mut randoms: Vec<[u8; 32]> = Vec::new();
    while randoms.len() < needed
        invariant
            needed == word_count(input@.len()),
            randoms@.len() <= needed,
        decreases needed - randoms@.len(),
    {
        match get_secure_random_bytes() {
            Ok(random) => randoms.push(random),
            Err(e) => return Err(e),
        }
    }
    let data = encrypt_with_draws(input, private_key, &randoms);
    proof {
        if input@.len() == 0 {
            let entries = choose|entries: Seq<(Seq<u8>, Seq<u8>)>|
                #[trigger] entries_encrypt_with(private_key.public_key, chunk_words(input@), randoms@, entries)
                    && data@ == frame_bytes(entries);
            assert(entries.len() == 0);
            assert(entries_bytes(entries) =~= Seq::<u8>::empty());
            assert(data@ =~= word_bytes(0));
        }
    }
    let result: Result<Vec<u8>, CryptoError> = Ok(data);
    assert(result->Ok_0@ == data@);
    assert(is_drawn_blob_encryption(private_key.public_key, input@, randoms@, result->Ok_0@));
    result
}

/// The blob that encrypts `input` with the random bytes drawn for its words, one draw per
/// word in order: the number of words, then for each word the length and bytes of `c1` and
/// of `c2` of its ciphertext, every length a 32-bit little-endian number.
#[verifier::rlimit(40)]
pub fn encrypt_with_draws(input: &[u8], private_key: &PrivateKey, randoms: &Vec<[u8; 32]>) -> (data: Vec<u8>)
    requires
        private_key.public_key.well_formed() || input@.len() == 0,
        words_below_modulus(private_key.public_key, input@),
        randoms@.len() == word_count(input@.len()),
    ensures
        is_drawn_blob_encryption(private_key.public_key, input@, randoms@, data@),
        is_blob_encryption(private_key.public_key, input@, data@),
{
    let public_key = &private_key.public_key;
    let words = split_words(input);
    let ghost all_words = chunk_words(input@);
    let mut ciphertexts: Vec<Ciphertext> = Vec::new();
    let mut i: usize = 0;
    while i < words.len()
        invariant
            public_key == &private_key.public_key,
            words@.len() > 0 ==> public_key.well_formed(),
            words_below_modulus(*public_key, input@),
            words@.len() == word_count(input@.len()),
            all_words == chunk_words(input@),
            forall|k: int| 0 <= k < words@.len() ==> words@[k] as nat == #[trigger] all_words[k],
            i <= words@.len(),
            ciphertexts@.len() == i,
            randoms@.len() == words@.len(),
            forall|k: int|
                0 <= k < i ==> #[trigger] public_key.is_encryption_of(
                    all_words[k],
                    ciphertexts@[k],
                ),
            forall|k: int|
                0 <= k < i ==> encrypts_with(
                    public_key.prime@,
                    public_key.generator@,
                    public_key.public_exponent@,
                    all_words[k],
                    be_nat(randoms@[k]@) % ((public_key.prime@ - 1) as nat),
                    (#[trigger] ciphertexts@[k]).c1@,
                    ciphertexts@[k].c2@,
                ),
            forall|k: int|
                0 <= k < i ==> canonical_le((#[trigger] ciphertexts@[k]).c1.le_bytes())
                    && canonical_le(ciphertexts@[k].c2.le_bytes()),
        decreases words@.len() - i,
    {
        let message = Natural::from_u32(words[i]);
        assert(all_words[i as int] < public_key.prime@);
        let ciphertext = public_key.encrypt_with_random(&message, &randoms[i]);
        ciphertexts.push(ciphertext);
        i = i + 1;
    }
    let mut result: Vec<u8> = Vec::new();
    let count = (ciphertexts.len() as u64 % 4294967296u64) as u32;
    proof {
        lemma_word_bytes_low_bits(ciphertexts@.len() as nat);
    }
    push_word(&mut result, count);
    let ghost mut entries: Seq<(Seq<u8>, Seq<u8>)> = Seq::empty();
    let mut j: usize = 0;
    while j < ciphertexts.len()
        invariant
            j <= ciphertexts@.len(),
            entries.len() == j,
            forall|k: int|
                0 <= k < ciphertexts@.len() ==> #[trigger] public_key.is_encryption_of(
                    all_words[k],
                    ciphertexts@[k],
                ),
            forall|k: int|
                0 <= k < ciphertexts@.len() ==> encrypts_with(
                    public_key.prime@,
                    public_key.generator@,
                    public_key.public_exponent@,
                    all_words[k],
                    be_nat(randoms@[k]@) % ((public_key.prime@ - 1) as nat),
                    (#[trigger] ciphertexts@[k]).c1@,
                    ciphertexts@[k].c2@,
                ),
            forall|k: int|
                0 <= k < ciphertexts@.len() ==> canonical_le((#[trigger] ciphertexts@[k]).c1.le_bytes())
                    && canonical_le(ciphertexts@[k].c2.le_bytes()),
            ciphertexts@.len() == word_count(input@.len()),
            all_words == chunk_words(input@),
            forall|k: int|
                0 <= k < j ==> (#[trigger] entries[k]).0 == ciphertexts@[k].c1.le_bytes()
                    && entries[k].1 == ciphertexts@[k].c2.le_bytes(),
            result@ == word_bytes(ciphertexts@.len() as nat) + entries_bytes(entries),
        decreases ciphertexts@.len() - j,
    {
        let c1_bytes = ciphertexts[j].c1.to_bytes_le();
        let c2_bytes = ciphertexts[j].c2.to_bytes_le();
        let c1_len = (c1_bytes.len() as u64 % 4294967296u64) as u32;
        let c2_len = (c2_bytes.len() as u64 % 4294967296u64) as u32;
        proof {
            lemma_word_bytes_low_bits(c1_bytes@.len() as nat);
            lemma_word_bytes_low_bits(c2_bytes@.len() as nat);
            lemma_entries_bytes_push(entries, (c1_bytes@, c2_bytes@));
        }
        push_word(&mut result, c1_len);
        push_bytes(&mut result, c1_bytes.as_slice());
        push_word(&mut result, c2_len);
        push_bytes(&mut result, c2_bytes.as_slice());
        proof {
            entries = entries.push((c1_bytes@, c2_bytes@));
        }
        assert(result@ =~= word_bytes(ciphertexts@.len() as nat) + entries_bytes(entries));
        j = j + 1;
    }
    proof {
        assert forall|k: int| 0 <= k < entries.len() implies {
            &&& canonical_le(#[trigger] entries[k].0)
            &&& canonical_le(entries[k].1)
            &&& public_key.encrypts(all_words[k], le_nat(entries[k].0), le_nat(entries[k].1))
            &&& encrypts_with(
                public_key.prime@,
                public_key.generator@,
                public_key.public_exponent@,
                all_words[k],
                be_nat(randoms@[k]@) % ((public_key.prime@ - 1) as nat),
                le_nat(entries[k].0),
                le_nat(entries[k].1),
            )
        } by {
            ciphertexts@[k].c1.lemma_value_of_bytes();
            ciphertexts@[k].c2.lemma_value_of_bytes();
            assert(public_key.is_encryption_of(all_words[k], ciphertexts@[k]));
        }
        assert(entries_encrypt(*public_key, all_words, entries));
        assert(entries_encrypt_with(*public_key, all_words, randoms@, entries));
    }
    result
}

/// Decrypt a blob of encrypted data using ElGamal decryption.
///
/// The blob is read entry by entry; each entry is decrypted, its lowest 32-bit digit
/// becomes four plaintext bytes, trailing zero bytes are dropped, and the rest must be
/// UTF-8.
/// An entry that decrypts to zero has no lowest digit to read, and the blob is refused as
/// an invalid ciphertext.
pub fn decrypt(data: Vec<u8>, private_key: &PrivateKey) -> (text: Result<String, CryptoError>)
    requires
        private_key.public_key.well_formed() || !(parse_frame(data@) matches Some(parsed)
            && parsed.0.len() > 0),
    ensures
        decrypts_to_nonzero(*private_key, data@) ==> decryption_outcome(*private_key, data@, text),
        !decrypts_to_nonzero(*private_key, data@) ==> (text matches Err(e) && e is InvalidCiphertext),
{
    match decrypt_blob(data, private_key) {
        Some(text) => text,
        None => Err(CryptoError::InvalidCiphertext),
    }
}

/// Decrypts a blob as `decrypt` does, but tells an entry that decrypts to zero apart from
/// the other invalid ciphertexts: the answer is `None` there.
pub fn decrypt_checked(data: Vec<u8>, private_key: &PrivateKey) -> (text: Option<Result<String, CryptoError>>)
    requires
        private_key.public_key.well_formed() || !(parse_frame(data@) matches Some(parsed)
            && parsed.0.len() > 0),
    ensures
        text is None <==> !decrypts_to_nonzero(*private_key, data@),
        text matches Some(t) ==> decryption_outcome(*private_key, data@, t),
{
    decrypt_blob(data, private_key)
}

/// What decrypting `data` with `key` gives: an invalid-ciphertext error when the blob is
/// not well framed; otherwise the recovered plaintext as text when it is UTF-8, and a
/// decoding error when it is not.
pub open spec fn decryption_outcome(key: PrivateKey, data: Seq<u8>, text: Result<String, CryptoError>) -> bool {
    &&& parse_frame(data) is None ==> (text matches Err(e) && e is InvalidCiphertext)
    &&& parse_frame(data) matches Some(parsed) ==> {
        let plain = plaintext_bytes(key, parsed.0);
        &&& valid_utf8(plain) ==> (text matches Ok(s) && s@ == decode_utf8(plain))
        &&& !valid_utf8(plain) ==> (text matches Err(e) && e is DecodeDecryptedMessage)
    }
}

/// Decryption of a blob, stopping with `None` at an entry that decrypts to zero.
fn decrypt_blob(data: Vec<u8>, private_key: &PrivateKey) -> (text: Option<Result<String, CryptoError>>)
    requires
        private_key.public_key.well_formed() || !(parse_frame(data@) matches Some(parsed)
            && parsed.0.len() > 0),
    ensures
        text is None <==> !decrypts_to_nonzero(*private_key, data@),
        text matches Some(t) ==> decryption_outcome(*private_key, data@, t),
{
    if data.len() < 4 {
        return Some(Err(CryptoError::InvalidCiphertext));
    }
    let count = read_word_at(data.as_slice(), 0);
    let mut offset: usize = 4;
    let mut ciphertexts: Vec<Ciphertext> = Vec::new();
    let ghost mut entries: Seq<(Seq<u8>, Seq<u8>)> = Seq::empty();
    let mut n: u32 = 0;
    while n < count
        invariant
            data@.len() >= 4,
            count as nat == read_word(data@, 0),
            4 <= offset <= data@.len(),
            n <= count,
            parse_frame(data@) == match parse_entries(data@, offset as nat, (count - n) as nat) {
                None => None,
                Some(rest) => Some((entries + rest.0, rest.1)),
            },
            ciphertexts@.len() == entries.len(),
            forall|k: int|
                0 <= k < entries.len() ==> (#[trigger] ciphertexts@[k]).c1@ == le_nat(entries[k].0)
                    && ciphertexts@[k].c2@ == le_nat(entries[k].1),
        decreases count - n,
    {
        if data.len() - offset < 8 {
            return Some(Err(CryptoError::InvalidCiphertext));
        }
        let c1_len = read_word_at(data.as_slice(), offset) as usize;
        let start1 = offset + 4;
        if ((data.len() - start1) as u64) < c1_len as u64 + 4 {
            return Some(Err(CryptoError::InvalidCiphertext));
        }
        let c1_bytes = copy_range(data.as_slice(), start1, start1 + c1_len);
        let c1 = Natural::from_bytes_le(c1_bytes.as_slice());
        let after1 = start1 + c1_len;
        let c2_len = read_word_at(data.as_slice(), after1) as usize;
        let start2 = after1 + 4;
        if ((data.len() - start2) as u64) < c2_len as u64 {
            return Some(Err(CryptoError::InvalidCiphertext));
        }
        let c2_bytes = copy_range(data.as_slice(), start2, start2 + c2_len);
        let c2 = Natural::from_bytes_le(c2_bytes.as_slice());
        let ghost rest = parse_entries(data@, (start2 + c2_len) as nat, (count - n - 1) as nat);
        assert(parse_entries(data@, offset as nat, (count - n) as nat) == match rest {
            None => None,
            Some(r) => Some((seq![(c1_bytes@, c2_bytes@)] + r.0, r.1)),
        });
        ciphertexts.push(Ciphertext { c1, c2 });
        proof {
            if let Some(r) = rest {
                assert(entries + (seq![(c1_bytes@, c2_bytes@)] + r.0) =~= entries.push(
                    (c1_bytes@, c2_bytes@),
                ) + r.0);
            }
            entries = entries.push((c1_bytes@, c2_bytes@));
        }
        offset = start2 + c2_len;
        n = n + 1;
    }
    assert(entries + Seq::<(Seq<u8>, Seq<u8>)>::empty() =~= entries);
    assert(parse_frame(data@) == Some((entries, offset as nat)));
    let ghost expected = decrypted_words(*private_key, entries);
    let mut words: Vec<u32> = Vec::new();
    let mut k: usize = 0;
    while k < ciphertexts.len()
        invariant
            entries.len() > 0 ==> private_key.public_key.well_formed(),
            parse_frame(data@) == Some((entries, offset as nat)),
            expected == decrypted_words(*private_key, entries),
            ciphertexts@.len() == entries.len(),
            forall|t: int|
                0 <= t < entries.len() ==> (#[trigger] ciphertexts@[t]).c1@ == le_nat(entries[t].0)
                    && ciphertexts@[t].c2@ == le_nat(entries[t].1),
            k <= ciphertexts@.len(),
            words@.len() == k,
            forall|t: int| 0 <= t < k ==> words@[t] as nat == #[trigger] expected[t],
            forall|t: int|
                0 <= t < k ==> decrypted_value(
                    private_key.public_key.prime@,
                    private_key.private_key@,
                    le_nat(#[trigger] entries[t].0),
                    le_nat(entries[t].1),
                ) != 0,
        decreases ciphertexts@.len() - k,
    {
        let m = match private_key.decrypt(&ciphertexts[k]) {
            Ok(m) => m,
            Err(e) => return Some(Err(e)),
        };
        assert(le_nat(entries[k as int].0) == ciphertexts@[k as int].c1@);
        assert(le_nat(entries[k as int].1) == ciphertexts@[k as int].c2@);
        assert(parse_frame(data@).unwrap().0[k as int] == entries[k as int]);
        let digits = big_u32_digits(&m);
        if digits.len() == 0 {
            return None;
        }
        words.push(digits[0]);
        k = k + 1;
    }
    assert(words@.map_values(|w: u32| w as nat) =~= expected);
    let mut bytes = words_to_bytes(words.as_slice());
    strip_zeros(&mut bytes);
    match utf8_to_string(bytes) {
        Ok(s) => Some(Ok(s)),
        Err(_) => Some(Err(CryptoError::DecodeDecryptedMessage)),
    }
}

/// Both numbers of a ciphertext are residues modulo the group modulus.
proof fn lemma_ciphertext_below_modulus(key: PrivateKey, m: nat, y: nat, c1: nat, c2: nat)
    requires
        key.is_group_key(),
        encrypts_with(
            key.public_key.prime@,
            key.public_key.generator@,
            key.public_key.public_exponent@,
            m,
            y,
            c1,
            c2,
        ),
    ensures
        c1 < group_prime(),
        c2 < group_prime(),
{
}

/// Decrypting undoes encrypting: under a key of the library's group, any encryption of a
/// message below the modulus decrypts to that message.
pub proof fn lemma_decrypt_undoes_encrypt(key: PrivateKey, m: nat, c1: nat, c2: nat)
    requires
        key.is_group_key(),
        m < group_prime(),
        key.public_key.encrypts(m, c1, c2),
    ensures
        decrypted_value(key.public_key.prime@, key.private_key@, c1, c2) == m,
        c1 < group_prime(),
        c2 < group_prime(),
{
    let y = choose|y: nat|
        y < key.public_key.prime@ - 1 && #[trigger] encrypts_with(
            key.public_key.prime@,
            key.public_key.generator@,
            key.public_key.public_exponent@,
            m,
            y,
            c1,
            c2,
        );
    lemma_decryption_undoes_encryption(key.private_key@, y, m, c1, c2);
    lemma_ciphertext_below_modulus(key, m, y, c1, c2);
}

/// One entry that encrypts a word `m < 2^32` under a key of the library's group has both
/// numbers written in fewer than `2^32` bytes, and decrypts to `m`.
proof fn lemma_entry_decrypts(key: PrivateKey, m: nat, entry: (Seq<u8>, Seq<u8>))
    requires
        key.is_group_key(),
        m < 0x1_0000_0000,
        canonical_le(entry.0),
        canonical_le(entry.1),
        key.public_key.encrypts(m, le_nat(entry.0), le_nat(entry.1)),
    ensures
        entry.0.len() < 0x1_0000_0000,
        entry.1.len() < 0x1_0000_0000,
        decrypted_value(group_prime(), key.private_key@, le_nat(entry.0), le_nat(entry.1)) == m,
{
    lemma_prime_size();
    lemma_decrypt_undoes_encrypt(key, m, le_nat(entry.0), le_nat(entry.1));
    lemma_canonical_length(entry.0, 32);
    lemma_canonical_length(entry.1, 32);
}

/// A blob that encrypts `input` under a key of the library's group decrypts back to
/// `input` without its trailing zero bytes, which go with the padding: it reads as exactly
/// the entries written, and no entry decrypts to zero. This holds when the plaintext has
/// fewer than `2^32` words and no word made of four zero bytes.
pub proof fn lemma_decrypt_recovers_trimmed_plaintext(key: PrivateKey, input: Seq<u8>, data: Seq<u8>)
    requires
        key.is_group_key(),
        is_blob_encryption(key.public_key, input, data),
        word_count(input.len()) < 0x1_0000_0000,
        forall|i: int| 0 <= i < word_count(input.len()) ==> #[trigger] chunk_words(input)[i] != 0,
    ensures
        parse_frame(data) matches Some(parsed) && parsed.1 == data.len() && plaintext_bytes(
            key,
            parsed.0,
        ) == strip_trailing_zeros(input),
        decrypts_to_nonzero(key, data),
{
    let words = chunk_words(input);
    let entries = choose|entries: Seq<(Seq<u8>, Seq<u8>)>|
        #[trigger] entries_encrypt(key.public_key, words, entries) && data == frame_bytes(entries);
    let recovered = decrypted_words(key, entries);
    assert forall|i: int| 0 <= i < entries.len() implies #[trigger] entries[i].0.len() < 0x1_0000_0000
        && entries[i].1.len() < 0x1_0000_0000 && recovered[i] == words[i] by {
        lemma_chunk_words_bound(input, i);
        lemma_entry_decrypts(key, words[i], entries[i]);
        vstd::arithmetic::div_mod::lemma_small_mod(words[i], 0x1_0000_0000);
    }
    assert(fits_frame(entries));
    lemma_frame_roundtrip(entries);
    assert(recovered =~= words);
    lemma_chunk_roundtrip_trimmed(input);
}

/// Whatever bytes were drawn, one draw per word, the blob they give under a key of the
/// library's group holds one entry per word of the plaintext, reads as exactly those
/// entries, and decrypts back to the plaintext without its trailing zero bytes. This holds
/// when the plaintext has fewer than `2^32` words and no word made of four zero bytes.
pub proof fn lemma_drawn_blob_decrypts_back(
    key: PrivateKey,
    input: Seq<u8>,
    randoms: Seq<[u8; 32]>,
    data: Seq<u8>,
)
    requires
        key.is_group_key(),
        is_drawn_blob_encryption(key.public_key, input, randoms, data),
        word_count(input.len()) < 0x1_0000_0000,
        forall|i: int| 0 <= i < word_count(input.len()) ==> #[trigger] chunk_words(input)[i] != 0,
    ensures
        parse_frame(data) matches Some(parsed) && parsed.0.len() == word_count(input.len())
            && parsed.1 == data.len() && plaintext_bytes(key, parsed.0) == strip_trailing_zeros(
            input,
        ),
        decrypts_to_nonzero(key, data),
{
    let words = chunk_words(input);
    let entries = choose|entries: Seq<(Seq<u8>, Seq<u8>)>|
        #[trigger] entries_encrypt_with(key.public_key, words, randoms, entries) && data == frame_bytes(
            entries,
        );
    lemma_prime_size();
    assert forall|i: int| 0 <= i < entries.len() implies #[trigger] entries[i].0.len() < 0x1_0000_0000
        && entries[i].1.len() < 0x1_0000_0000 && key.public_key.encrypts(
        words[i],
        le_nat(entries[i].0),
        le_nat(entries[i].1),
    ) by {
        let y = be_nat(randoms[i]@) % ((key.public_key.prime@ - 1) as nat);
        vstd::arithmetic::div_mod::lemma_mod_pos_bound(
            be_nat(randoms[i]@) as int,
            (key.public_key.prime@ - 1) as int,
        );
        assert(encrypts_with(
            key.public_key.prime@,
            key.public_key.generator@,
            key.public_key.public_exponent@,
            words[i],
            y,
            le_nat(entries[i].0),
            le_nat(entries[i].1),
        ));
        lemma_chunk_words_bound(input, i);
        lemma_entry_decrypts(key, words[i], entries[i]);
    }
    assert(entries_encrypt(key.public_key, words, entries));
    assert(is_blob_encryption(key.public_key, input, data));
    lemma_decrypt_recovers_trimmed_plaintext(key, input, data);
    assert(fits_frame(entries));
    lemma_frame_roundtrip(entries);
}

/// A blob that encrypts `input` under a key of the library's group decrypts back to
/// `input`: it reads as exactly the entries written, no entry decrypts to zero, and the
/// recovered plaintext is `input`. This holds when the plaintext has fewer than `2^32`
/// words, does not end in a zero byte, and has no word made of four zero bytes.
pub proof fn lemma_decrypt_recovers_plaintext(key: PrivateKey, input: Seq<u8>, data: Seq<u8>)
    requires
        key.is_group_key(),
        is_blob_encryption(key.public_key, input, data),
        word_count(input.len()) < 0x1_0000_0000,
        input.len() == 0 || input.last() != 0,
        forall|i: int| 0 <= i < word_count(input.len()) ==> #[trigger] chunk_words(input)[i] != 0,
    ensures
        parse_frame(data) matches Some(parsed) && parsed.1 == data.len() && plaintext_bytes(
            key,
            parsed.0,
        ) == input,
        decrypts_to_nonzero(key, data),
{
    lemma_decrypt_recovers_trimmed_plaintext(key, input, data);
    assert(strip_trailing_zeros(input) == input);
}

/// A blob that encrypts the UTF-8 bytes of a text under a key of the library's group
/// decrypts to that text. This holds when the text has fewer than `2^32` words of four
/// bytes, does not end in a NUL character, and has no word of four NUL characters.
pub proof fn lemma_decrypt_recovers_text(key: PrivateKey, text: Seq<char>, data: Seq<u8>)
    requires
        key.is_group_key(),
        is_blob_encryption(key.public_key, encode_utf8(text), data),
        word_count(encode_utf8(text).len()) < 0x1_0000_0000,
        text.len() == 0 || text.last() != '\0',
        forall|i: int|
            0 <= i < word_count(encode_utf8(text).len()) ==> #[trigger] chunk_words(
                encode_utf8(text),
            )[i] != 0,
    ensures
        decrypts_to_nonzero(key, data),
        forall|outcome: Result<String, CryptoError>| #[trigger]
            decryption_outcome(key, data, outcome) ==> (outcome matches Ok(s) && s@ == text),
{
    let bytes = encode_utf8(text);
    if text.len() > 0 {
        lemma_utf8_last_byte(text);
    }
    lemma_decrypt_recovers_plaintext(key, bytes, data);
    vstd::utf8::encode_utf8_valid_utf8(text);
    vstd::utf8::encode_utf8_decode_utf8(text);
}

/// The UTF-8 encoding of a text that does not end in NUL does not end in a zero byte.
proof fn lemma_utf8_last_byte(text: Seq<char>)
    requires
        text.len() > 0,
        text.last() != '\0',
    ensures
        encode_utf8(text).len() > 0,
        encode_utf8(text).last() != 0,
    decreases text.len(),
{
    let rest = text.drop_first();
    if text.len() == 1 {
        let c = text[0] as u32;
        assert(text[0] == text.last());
        vstd::utf8::char_u32_cast(text[0], c);
        vstd::utf8::char_is_scalar(text[0]);
        assert(c != 0) by {
            if c == 0 {
                assert((0u32 as char) == '\0');
            }
        }
        assert(encode_utf8(rest) =~= Seq::<u8>::empty());
        assert(encode_utf8(text) =~= vstd::utf8::encode_scalar(c));
        assert(c <= 0x7F ==> (c & 0x7F) as u8 != 0) by (bit_vector)
            requires
                c != 0,
        ;
        assert((0x80u8 | (c & 0x3F) as u8) != 0) by (bit_vector);
    } else {
        assert(rest.last() == text.last());
        lemma_utf8_last_byte(rest);
        assert(encode_utf8(text).last() == encode_utf8(rest).last());
    }
}

/// A text without NUL characters, of fewer than `2^32` words, decrypts back to itself.
pub proof fn lemma_nul_free_text_round_trip(key: PrivateKey, text: Seq<char>, data: Seq<u8>)
    requires
        key.is_group_key(),
        is_blob_encryption(key.public_key, encode_utf8(text), data),
        word_count(encode_utf8(text).len()) < 0x1_0000_0000,
        forall|i: int| 0 <= i < text.len() ==> #[trigger] text[i] != '\0',
    ensures
        decrypts_to_nonzero(key, data),
        forall|outcome: Result<String, CryptoError>| #[trigger]
            decryption_outcome(key, data, outcome) ==> (outcome matches Ok(s) && s@ == text),
{
    let bytes = encode_utf8(text);
    lemma_utf8_of_nul_free_has_no_zero(text);
    assert forall|i: int| 0 <= i < word_count(bytes.len()) implies #[trigger] chunk_words(bytes)[i]
        != 0 by {
        let end = if 4 * i + 4 <= bytes.len() { 4 * i + 4 } else { bytes.len() as int };
        let piece = bytes.subrange(4 * i, end);
        assert(piece[0] == bytes[4 * i]);
        assert(le_nat(piece) == piece[0] as nat + 256 * le_nat(piece.drop_first()));
    }
    if text.len() > 0 {
        assert(text.last() == text[text.len() - 1]);
    }
    lemma_decrypt_recovers_text(key, text, data);
}

/// The UTF-8 encoding of a text without NUL characters has no zero byte.
proof fn lemma_utf8_of_nul_free_has_no_zero(text: Seq<char>)
    requires
        forall|i: int| 0 <= i < text.len() ==> #[trigger] text[i] != '\0',
    ensures
        forall|j: int| 0 <= j < encode_utf8(text).len() ==> #[trigger] encode_utf8(text)[j] != 0,
    decreases text.len(),
{
    if text.len() > 0 {
        let rest = text.drop_first();
        assert forall|i: int| 0 <= i < rest.len() implies #[trigger] rest[i] != '\0' by {
            assert(rest[i] == text[i + 1]);
        }
        lemma_utf8_of_nul_free_has_no_zero(rest);
        let c = text[0] as u32;
        vstd::utf8::char_u32_cast(text[0], c);
        vstd::utf8::char_is_scalar(text[0]);
        assert(c != 0) by {
            if c == 0 {
                assert((0u32 as char) == '\0');
            }
        }
        let head = vstd::utf8::encode_scalar(c);
        assert(forall|j: int| 0 <= j < head.len() ==> head[j] != 0) by {
            assert(c <= 0x7F ==> (c & 0x7F) as u8 != 0) by (bit_vector)
                requires
                    c != 0,
            ;
            assert((0xC0u8 | ((c >> 6) & 0x1F) as u8) != 0) by (bit_vector);
            assert((0xE0u8 | ((c >> 12) & 0x0F) as u8) != 0) by (bit_vector);
            assert((0xF0u8 | ((c >> 18) & 0x7) as u8) != 0) by (bit_vector);
            assert((0x80u8 | (c & 0x3F) as u8) != 0) by (bit_vector);
            assert((0x80u8 | ((c >> 6) & 0x3F) as u8) != 0) by (bit_vector);
            assert((0x80u8 | ((c >> 12) & 0x3F) as u8) != 0) by (bit_vector);
        }
        assert(encode_utf8(text) =~= head + encode_utf8(rest));
        assert forall|j: int| 0 <= j < encode_utf8(text).len() implies #[trigger] encode_utf8(text)[j]
            != 0 by {
            if j < head.len() {
                assert(encode_utf8(text)[j] == head[j]);
            } else {
                assert(encode_utf8(text)[j] == encode_utf8(rest)[j - head.len()]);
            }
        }
    }
}

/// `text` without its trailing NUL characters.
pub open spec fn trim_trailing_nuls(text: Seq<char>) -> Seq<char>
    decreases text.len(),
{
    if text.len() > 0 && text.last() == '\0' {
        trim_trailing_nuls(text.drop_last())
    } else {
        text
    }
}

/// A blob that encrypts the UTF-8 bytes of a text under a key of the library's group
/// decrypts to that text without its trailing NUL characters, which go with the padding.
/// This holds when the text has fewer than `2^32` words of four bytes and no word of four
/// zero bytes.
pub proof fn lemma_decrypt_recovers_trimmed_text(key: PrivateKey, text: Seq<char>, data: Seq<u8>)
    requires
        key.is_group_key(),
        is_blob_encryption(key.public_key, encode_utf8(text), data),
        word_count(encode_utf8(text).len()) < 0x1_0000_0000,
        forall|i: int|
            0 <= i < word_count(encode_utf8(text).len()) ==> #[trigger] chunk_words(
                encode_utf8(text),
            )[i] != 0,
    ensures
        decrypts_to_nonzero(key, data),
        forall|outcome: Result<String, CryptoError>| #[trigger]
            decryption_outcome(key, data, outcome) ==> (outcome matches Ok(s) && s@
                == trim_trailing_nuls(text)),
{
    lemma_decrypt_recovers_trimmed_plaintext(key, encode_utf8(text), data);
    lemma_strip_utf8_zeros(text);
    vstd::utf8::encode_utf8_valid_utf8(trim_trailing_nuls(text));
    vstd::utf8::encode_utf8_decode_utf8(trim_trailing_nuls(text));
}

/// Encoding two texts one after the other encodes their concatenation.
proof fn lemma_utf8_concat(a: Seq<char>, b: Seq<char>)
    ensures
        encode_utf8(a + b) == encode_utf8(a) + encode_utf8(b),
    decreases a.len(),
{
    if a.len() == 0 {
        assert(a + b =~= b);
        assert(encode_utf8(a) + encode_utf8(b) =~= encode_utf8(b));
    } else {
        assert((a + b).drop_first() =~= a.drop_first() + b);
        assert((a + b)[0] == a[0]);
        lemma_utf8_concat(a.drop_first(), b);
        assert(encode_utf8(a + b) =~= encode_utf8(a) + encode_utf8(b));
    }
}

/// Stripping the trailing zero bytes of a text's UTF-8 encoding encodes the text without
/// its trailing NUL characters.
proof fn lemma_strip_utf8_zeros(text: Seq<char>)
    ensures
        strip_trailing_zeros(encode_utf8(text)) == encode_utf8(trim_trailing_nuls(text)),
    decreases text.len(),
{
    if text.len() == 0 {
    } else if text.last() == '\0' {
        let prefix = text.drop_last();
        assert(prefix + seq!['\0'] =~= text);
        lemma_utf8_concat(prefix, seq!['\0']);
        let nul = seq!['\0'];
        assert(nul.drop_first() =~= Seq::<char>::empty());
        let c = nul[0] as u32;
        vstd::utf8::char_u32_cast(nul[0], c);
        assert(c == 0) by {
            assert(('\0' as u32) == 0);
        }
        assert((c & 0x7F) as u8 == 0) by (bit_vector)
            requires
                c == 0,
        ;
        assert(vstd::utf8::has_width_1_encoding(c));
        assert(vstd::utf8::leading_byte_width_1(c) == 0);
        assert(vstd::utf8::encode_scalar(c) =~= seq![0u8]);
        assert(encode_utf8(nul.drop_first()) =~= Seq::<u8>::empty());
        assert(encode_utf8(nul) == vstd::utf8::encode_scalar(c) + encode_utf8(nul.drop_first()));
        assert(encode_utf8(nul) =~= seq![0u8]);
        let bytes = encode_utf8(text);
        assert(bytes == encode_utf8(prefix) + seq![0u8]);
        assert(bytes.drop_last() =~= encode_utf8(prefix));
        lemma_strip_utf8_zeros(prefix);
    } else {
        lemma_utf8_last_byte(text);
    }
}

} // verus!
