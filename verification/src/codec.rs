//! The byte layout of encrypted blobs: the plaintext is cut into little-endian 32-bit
//! words, and the ciphertexts are written as a counted list of length-prefixed pairs.

use crate::natural::{le_nat, lemma_le_nat_bound};
use vstd::arithmetic::power::pow;
use vstd::prelude::*;

verus! {

/// The four little-endian bytes of the low 32 bits of `w`.
pub open spec fn word_bytes(w: nat) -> Seq<u8> {
    seq![
        (w % 256) as u8,
        ((w / 256) % 256) as u8,
        ((w / 65536) % 256) as u8,
        ((w / 16777216) % 256) as u8,
    ]
}

/// The number of 32-bit words a plaintext of `len` bytes is cut into.
pub open spec fn word_count(len: nat) -> nat {
    (len + 3) / 4
}

/// The plaintext cut into words: word `i` is the little-endian value of bytes
/// `4i .. 4i+4` (fewer at the end).
pub open spec fn chunk_words(bytes: Seq<u8>) -> Seq<nat> {
    Seq::new(
        word_count(bytes.len()),
        |i: int|
            le_nat(bytes.subrange(4 * i, if 4 * i + 4 <= bytes.len() { 4 * i + 4 } else { bytes.len() as int })),
    )
}

/// The words written out again, four little-endian bytes each.
pub open spec fn words_bytes(words: Seq<nat>) -> Seq<u8>
    decreases words.len(),
{
    if words.len() == 0 {
        Seq::empty()
    } else {
        words_bytes(words.drop_last()) + word_bytes(words.last())
    }
}

/// `bytes` without its trailing zero bytes.
pub open spec fn strip_trailing_zeros(bytes: Seq<u8>) -> Seq<u8>
    decreases bytes.len(),
{
    if bytes.len() > 0 && bytes.last() == 0 {
        strip_trailing_zeros(bytes.drop_last())
    } else {
        bytes
    }
}

/// One ciphertext entry: the length of `c1`, `c1`, the length of `c2`, `c2`.
pub open spec fn entry_bytes(entry: (Seq<u8>, Seq<u8>)) -> Seq<u8> {
    word_bytes(entry.0.len()) + entry.0 + word_bytes(entry.1.len()) + entry.1
}

/// The entries written one after another.
pub open spec fn entries_bytes(entries: Seq<(Seq<u8>, Seq<u8>)>) -> Seq<u8>
    decreases entries.len(),
{
    if entries.len() == 0 {
        Seq::empty()
    } else {
        entry_bytes(entries[0]) + entries_bytes(entries.drop_first())
    }
}

/// A whole blob: the number of entries, then the entries.
pub open spec fn frame_bytes(entries: Seq<(Seq<u8>, Seq<u8>)>) -> Seq<u8> {
    word_bytes(entries.len()) + entries_bytes(entries)
}

/// The 32-bit little-endian number at `offset`.
pub open spec fn read_word(data: Seq<u8>, offset: int) -> nat {
    le_nat(data.subrange(offset, offset + 4))
}

/// Reading `count` entries from `offset`, as the decoder does: the entries and the offset
/// after the last one, or `None` when the data runs out first.
pub open spec fn parse_entries(data: Seq<u8>, offset: nat, count: nat) -> Option<
    (Seq<(Seq<u8>, Seq<u8>)>, nat),
>
    decreases count,
{
    if count == 0 {
        Some((Seq::empty(), offset))
    } else if offset + 8 > data.len() {
        None
    } else {
        let c1_len = read_word(data, offset as int);
        let o1 = offset + 4;
        if o1 + c1_len + 4 > data.len() {
            None
        } else {
            let c1 = data.subrange(o1 as int, (o1 + c1_len) as int);
            let o2 = o1 + c1_len;
            let c2_len = read_word(data, o2 as int);
            let o3 = o2 + 4;
            if o3 + c2_len > data.len() {
                None
            } else {
                let c2 = data.subrange(o3 as int, (o3 + c2_len) as int);
                match parse_entries(data, o3 + c2_len, (count - 1) as nat) {
                    None => None,
                    Some(rest) => Some((seq![(c1, c2)] + rest.0, rest.1)),
                }
            }
        }
    }
}

/// Reading a whole blob: the count, then that many entries. Bytes after the last entry
/// are not looked at.
pub open spec fn parse_frame(data: Seq<u8>) -> Option<(Seq<(Seq<u8>, Seq<u8>)>, nat)> {
    if data.len() < 4 {
        None
    } else {
        parse_entries(data, 4, read_word(data, 0))
    }
}

/// The entries can be written without their lengths or count being cut to 32 bits.
pub open spec fn fits_frame(entries: Seq<(Seq<u8>, Seq<u8>)>) -> bool {
    &&& entries.len() < 0x1_0000_0000
    &&& forall|i: int|
        0 <= i < entries.len() ==> #[trigger] entries[i].0.len() < 0x1_0000_0000
            && entries[i].1.len() < 0x1_0000_0000
}

/// The bytes of a word denote the word, when it is below `2^32`.
pub proof fn lemma_word_bytes_value(w: nat)
    requires
        w < 0x1_0000_0000,
    ensures
        le_nat(word_bytes(w)) == w,
{
    let b = word_bytes(w);
    reveal_with_fuel(le_nat, 5);
    assert(b.drop_first().drop_first().drop_first().drop_first().len() == 0);
    assert(le_nat(b) == b[0] as nat + 256 * (b[1] as nat + 256 * (b[2] as nat + 256 * b[3] as nat)));
    assert(w == w % 256 + 256 * ((w / 256) % 256 + 256 * ((w / 65536) % 256 + 256 * ((w / 16777216) % 256))))
        by (nonlinear_arith)
        requires
            w < 0x1_0000_0000,
    ;
}

/// The bytes of a short string's value are the string followed by zero padding.
pub proof fn lemma_word_bytes_of_value(bytes: Seq<u8>)
    requires
        bytes.len() <= 4,
    ensures
        word_bytes(le_nat(bytes)) == bytes + Seq::new((4 - bytes.len()) as nat, |i: int| 0u8),
{
    let pad = Seq::new((4 - bytes.len()) as nat, |i: int| 0u8);
    let full = bytes + pad;
    assert(full.len() == 4);
    lemma_le_nat_append_zeros(bytes, (4 - bytes.len()) as nat);
    let w = le_nat(full);
    reveal_with_fuel(le_nat, 5);
    assert(full.drop_first().drop_first().drop_first().drop_first().len() == 0);
    let (b0, b1, b2, b3) = (full[0] as nat, full[1] as nat, full[2] as nat, full[3] as nat);
    assert(w == b0 + 256 * (b1 + 256 * (b2 + 256 * b3)));
    assert(w % 256 == b0 && (w / 256) % 256 == b1 && (w / 65536) % 256 == b2 && (w / 16777216) % 256
        == b3) by (nonlinear_arith)
        requires
            w == b0 + 256 * (b1 + 256 * (b2 + 256 * b3)),
            b0 < 256,
            b1 < 256,
            b2 < 256,
            b3 < 256,
    ;
    assert(word_bytes(w) =~= full);
}

/// Zero bytes appended at the high end do not change the value.
pub proof fn lemma_le_nat_append_zeros(bytes: Seq<u8>, n: nat)
    ensures
        le_nat(bytes + Seq::new(n, |i: int| 0u8)) == le_nat(bytes),
    decreases bytes.len(), n,
{
    let zeros = Seq::new(n, |i: int| 0u8);
    if bytes.len() == 0 {
        assert(bytes + zeros =~= zeros);
        if n > 0 {
            assert(zeros.drop_first() =~= Seq::new((n - 1) as nat, |i: int| 0u8));
            lemma_le_nat_append_zeros(bytes, (n - 1) as nat);
            assert(bytes + Seq::new((n - 1) as nat, |i: int| 0u8) =~= Seq::new(
                (n - 1) as nat,
                |i: int| 0u8,
            ));
        }
    } else {
        assert((bytes + zeros).drop_first() =~= bytes.drop_first() + zeros);
        lemma_le_nat_append_zeros(bytes.drop_first(), n);
    }
}

/// Zero bytes appended to a string that does not end in zero are exactly what stripping
/// removes.
pub proof fn lemma_strip_padding(bytes: Seq<u8>, n: nat)
    requires
        bytes.len() == 0 || bytes.last() != 0,
    ensures
        strip_trailing_zeros(bytes + Seq::new(n, |i: int| 0u8)) == bytes,
    decreases n,
{
    if n == 0 {
        assert(bytes + Seq::new(0, |i: int| 0u8) =~= bytes);
    } else {
        let longer = bytes + Seq::new(n, |i: int| 0u8);
        assert(longer.drop_last() =~= bytes + Seq::new((n - 1) as nat, |i: int| 0u8));
        lemma_strip_padding(bytes, (n - 1) as nat);
    }
}

/// Cutting a plaintext into words and writing the words out again gives the plaintext
/// followed by zero padding up to a multiple of four bytes.
pub proof fn lemma_words_bytes_of_chunks(bytes: Seq<u8>)
    ensures
        words_bytes(chunk_words(bytes)) == bytes + Seq::new(
            (4 * word_count(bytes.len()) - bytes.len()) as nat,
            |i: int| 0u8,
        ),
    decreases bytes.len(),
{
    let n = word_count(bytes.len());
    let words = chunk_words(bytes);
    if bytes.len() == 0 {
        assert(bytes + Seq::new(0, |i: int| 0u8) =~= Seq::<u8>::empty());
    } else {
        let cut = 4 * (n - 1);
        let head = bytes.subrange(0, cut);
        let tail = bytes.subrange(cut, bytes.len() as int);
        assert(word_count(head.len()) == n - 1);
        assert(words.drop_last() =~= chunk_words(head)) by {
            assert forall|i: int| 0 <= i < n - 1 implies words.drop_last()[i] == chunk_words(head)[i] by {
                assert(bytes.subrange(4 * i, 4 * i + 4) =~= head.subrange(4 * i, 4 * i + 4));
            }
        }
        assert(words.last() == le_nat(tail));
        lemma_words_bytes_of_chunks(head);
        assert(head + Seq::new(0, |i: int| 0u8) =~= head);
        lemma_word_bytes_of_value(tail);
        assert(bytes =~= head + tail);
        assert(words_bytes(words) =~= bytes + Seq::new(
            (4 * word_count(bytes.len()) - bytes.len()) as nat,
            |i: int| 0u8,
        ));
    }
}

/// Zero bytes appended at the end are removed with the trailing zeros already there.
pub proof fn lemma_strip_appended_zeros(bytes: Seq<u8>, n: nat)
    ensures
        strip_trailing_zeros(bytes + Seq::new(n, |i: int| 0u8)) == strip_trailing_zeros(bytes),
    decreases n,
{
    if n == 0 {
        assert(bytes + Seq::new(0, |i: int| 0u8) =~= bytes);
    } else {
        let longer = bytes + Seq::new(n, |i: int| 0u8);
        assert(longer.drop_last() =~= bytes + Seq::new((n - 1) as nat, |i: int| 0u8));
        lemma_strip_appended_zeros(bytes, (n - 1) as nat);
    }
}

/// Writing a plaintext as words and stripping the trailing zeros gives the plaintext
/// without its own trailing zeros.
pub proof fn lemma_chunk_roundtrip_trimmed(bytes: Seq<u8>)
    ensures
        strip_trailing_zeros(words_bytes(chunk_words(bytes))) == strip_trailing_zeros(bytes),
{
    lemma_words_bytes_of_chunks(bytes);
    lemma_strip_appended_zeros(bytes, (4 * word_count(bytes.len()) - bytes.len()) as nat);
}

/// Every word of a plaintext is below `2^32`.
pub proof fn lemma_chunk_words_bound(bytes: Seq<u8>, i: int)
    requires
        0 <= i < word_count(bytes.len()),
    ensures
        chunk_words(bytes)[i] < 0x1_0000_0000,
{
    let end = if 4 * i + 4 <= bytes.len() { 4 * i + 4 } else { bytes.len() as int };
    let piece = bytes.subrange(4 * i, end);
    lemma_le_nat_bound(piece);
    vstd::arithmetic::power::lemma_pow_increases(256, piece.len(), 4);
    reveal_with_fuel(pow, 5);
}

/// Appending one entry appends its bytes.
pub proof fn lemma_entries_bytes_push(entries: Seq<(Seq<u8>, Seq<u8>)>, entry: (Seq<u8>, Seq<u8>))
    ensures
        entries_bytes(entries.push(entry)) == entries_bytes(entries) + entry_bytes(entry),
    decreases entries.len(),
{
    let longer = entries.push(entry);
    if entries.len() == 0 {
        assert(longer.drop_first() =~= Seq::<(Seq<u8>, Seq<u8>)>::empty());
        assert(entries_bytes(longer.drop_first()) == Seq::<u8>::empty());
        assert(entries_bytes(longer) =~= entry_bytes(entry));
        assert(entries_bytes(entries) == Seq::<u8>::empty());
        assert(entries_bytes(entries) + entry_bytes(entry) =~= entry_bytes(entry));
    } else {
        assert(longer.drop_first() =~= entries.drop_first().push(entry));
        assert(longer[0] == entries[0]);
        lemma_entries_bytes_push(entries.drop_first(), entry);
        let first = entry_bytes(entries[0]);
        let mid = entries_bytes(entries.drop_first());
        assert(entries_bytes(longer) == first + (mid + entry_bytes(entry)));
        assert(entries_bytes(entries) == first + mid);
        assert(first + (mid + entry_bytes(entry)) =~= (first + mid) + entry_bytes(entry));
    }
}

/// A window of `data` that holds `front + back` holds `front` and then `back`.
proof fn lemma_window_split(data: Seq<u8>, at: int, front: Seq<u8>, back: Seq<u8>)
    requires
        0 <= at,
        at + front.len() + back.len() <= data.len(),
        data.subrange(at, at + front.len() + back.len()) == front + back,
    ensures
        data.subrange(at, at + front.len()) == front,
        data.subrange(at + front.len(), at + front.len() + back.len()) == back,
{
    let whole = data.subrange(at, at + front.len() + back.len());
    assert(data.subrange(at, at + front.len()) =~= whole.subrange(0, front.len() as int));
    assert(whole.subrange(0, front.len() as int) =~= front);
    assert(data.subrange(at + front.len(), at + front.len() + back.len()) =~= whole.subrange(
        front.len() as int,
        whole.len() as int,
    ));
    assert(whole.subrange(front.len() as int, whole.len() as int) =~= back);
}

/// Reading back entries that were written at `offset` gives the same entries and ends
/// right after them.
#[verifier::rlimit(30)]
pub proof fn lemma_parse_written_entries(data: Seq<u8>, offset: nat, entries: Seq<(Seq<u8>, Seq<u8>)>)
    requires
        fits_frame(entries),
        offset + entries_bytes(entries).len() <= data.len(),
        data.subrange(offset as int, (offset + entries_bytes(entries).len()) as int) == entries_bytes(entries),
    ensures
        parse_entries(data, offset, entries.len()) == Some((entries, offset + entries_bytes(entries).len())),
    decreases entries.len(),
{
    if entries.len() > 0 {
        let c1 = entries[0].0;
        let c2 = entries[0].1;
        assert(c1.len() < 0x1_0000_0000 && c2.len() < 0x1_0000_0000);
        let w1 = word_bytes(c1.len());
        let w2 = word_bytes(c2.len());
        let rest = entries.drop_first();
        let tail = entries_bytes(rest);
        let at = offset as int;
        assert(entries_bytes(entries) == entry_bytes(entries[0]) + tail);
        assert(entry_bytes(entries[0]) == w1 + c1 + w2 + c2);
        lemma_window_split(data, at, w1 + c1 + w2 + c2, tail);
        lemma_window_split(data, at, w1 + c1 + w2, c2);
        lemma_window_split(data, at, w1 + c1, w2);
        lemma_window_split(data, at, w1, c1);
        lemma_word_bytes_value(c1.len());
        lemma_word_bytes_value(c2.len());
        let next = offset + 4 + c1.len() + 4 + c2.len();
        assert(fits_frame(rest)) by {
            assert forall|i: int| 0 <= i < rest.len() implies #[trigger] rest[i].0.len() < 0x1_0000_0000
                && rest[i].1.len() < 0x1_0000_0000 by {
                assert(rest[i] == entries[i + 1]);
            }
        }
        lemma_parse_written_entries(data, next, rest);
        assert(seq![(c1, c2)] + rest =~= entries);
    }
}

/// A written blob reads back as the entries it was written from, and the reading ends
/// exactly at the end of the blob.
pub proof fn lemma_frame_roundtrip(entries: Seq<(Seq<u8>, Seq<u8>)>)
    requires
        fits_frame(entries),
    ensures
        parse_frame(frame_bytes(entries)) == Some((entries, frame_bytes(entries).len())),
{
    let data = frame_bytes(entries);
    assert(data.subrange(0, 4) =~= word_bytes(entries.len()));
    lemma_word_bytes_value(entries.len());
    assert(data.subrange(4, data.len() as int) =~= entries_bytes(entries));
    lemma_parse_written_entries(data, 4, entries);
}

/// Cut a plaintext into little-endian 32-bit words, four bytes each (fewer in the last).
pub fn split_words(bytes: &[u8]) -> (words: Vec<u32>)
    ensures
        words@.len() == word_count(bytes@.len()),
        forall|i: int| 0 <= i < words@.len() ==> words@[i] as nat == #[trigger] chunk_words(bytes@)[i],
{
    let mut words: Vec<u32> = Vec::new();
    let count: usize = if bytes.len() % 4 == 0 { bytes.len() / 4 } else { bytes.len() / 4 + 1 };
    assert(count == word_count(bytes@.len()));
    let mut k: usize = 0;
    while k < count
        invariant
            count == word_count(bytes@.len()),
            k <= count,
            words@.len() == k,
            forall|i: int| 0 <= i < words@.len() ==> words@[i] as nat == #[trigger] chunk_words(bytes@)[i],
        decreases count - k,
    {
        let n = bytes.len();
        assert(4 * k < n) by (nonlinear_arith)
            requires
                k < count,
                count == (n + 3) / 4,
        ;
        let start: usize = 4 * k;
        let end: usize = if bytes.len() - start >= 4 { start + 4 } else { bytes.len() };
        let mut value: u32 = 0;
        let mut j: usize = end;
        proof {
            reveal(pow);
        }
        while j > start
            invariant
                start <= j <= end,
                end <= bytes@.len(),
                end - start <= 4,
                value as nat == le_nat(bytes@.subrange(j as int, end as int)),
                value < pow(256, (end - j) as nat),
            decreases j - start,
        {
            j = j - 1;
            assert(bytes@.subrange(j as int, end as int).drop_first() =~= bytes@.subrange(
                (j + 1) as int,
                end as int,
            ));
            proof {
                reveal(pow);
                vstd::arithmetic::power::lemma_pow_increases(256, (end - j - 1) as nat, 3);
                reveal_with_fuel(pow, 4);
            }
            value = value * 256 + bytes[j] as u32;
        }
        assert(4 * (k as int) == start);
        assert(chunk_words(bytes@)[k as int] == le_nat(bytes@.subrange(start as int, end as int)));
        words.push(value);
        k = k + 1;
    }
    words
}

/// Append the four little-endian bytes of `w`.
pub fn push_word(out: &mut Vec<u8>, w: u32)
    ensures
        final(out)@ == old(out)@ + word_bytes(w as nat),
{
    out.push((w % 256) as u8);
    out.push(((w / 256) % 256) as u8);
    out.push(((w / 65536) % 256) as u8);
    out.push(((w / 16777216) % 256) as u8);
    assert(out@ =~= old(out)@ + word_bytes(w as nat));
}

/// Append `bytes`.
pub fn push_bytes(out: &mut Vec<u8>, bytes: &[u8])
    ensures
        final(out)@ == old(out)@ + bytes@,
{
    let ghost start = out@;
    let mut i: usize = 0;
    while i < bytes.len()
        invariant
            i <= bytes@.len(),
            out@ == start + bytes@.subrange(0, i as int),
        decreases bytes@.len() - i,
    {
        out.push(bytes[i]);
        i = i + 1;
        assert(out@ =~= start + bytes@.subrange(0, i as int));
    }
    assert(bytes@.subrange(0, bytes@.len() as int) =~= bytes@);
}

/// The 32-bit little-endian number at `offset`.
pub fn read_word_at(data: &[u8], offset: usize) -> (w: u32)
    requires
        offset + 4 <= data@.len(),
    ensures
        w as nat == read_word(data@, offset as int),
{
    let w0 = data[offset] as u32;
    let w1 = data[offset + 1] as u32;
    let w2 = data[offset + 2] as u32;
    let w3 = data[offset + 3] as u32;
    proof {
        let piece = data@.subrange(offset as int, offset + 4);
        reveal_with_fuel(le_nat, 5);
        assert(piece.drop_first().drop_first().drop_first().drop_first().len() == 0);
        assert(le_nat(piece) == w0 + 256 * (w1 + 256 * (w2 + 256 * w3)));
    }
    w0 + 256 * (w1 + 256 * (w2 + 256 * w3))
}

/// Write words out as four little-endian bytes each.
pub fn words_to_bytes(words: &[u32]) -> (bytes: Vec<u8>)
    ensures
        bytes@ == words_bytes(words@.map_values(|w: u32| w as nat)),
{
    let ghost all = words@.map_values(|w: u32| w as nat);
    let mut bytes: Vec<u8> = Vec::new();
    let mut i: usize = 0;
    while i < words.len()
        invariant
            i <= words@.len(),
            all == words@.map_values(|w: u32| w as nat),
            bytes@ == words_bytes(all.take(i as int)),
        decreases words@.len() - i,
    {
        assert(all.take((i + 1) as int).drop_last() =~= all.take(i as int));
        push_word(&mut bytes, words[i]);
        i = i + 1;
    }
    assert(all.take(words@.len() as int) =~= all);
    bytes
}

/// Drop the trailing zero bytes.
pub fn strip_zeros(bytes: &mut Vec<u8>)
    ensures
        final(bytes)@ == strip_trailing_zeros(old(bytes)@),
{
    while bytes.len() > 0 && bytes[bytes.len() - 1] == 0
        invariant
            strip_trailing_zeros(bytes@) == strip_trailing_zeros(old(bytes)@),
        decreases bytes@.len(),
    {
        bytes.pop();
    }
}

/// A copy of `data[start..end]`.
pub fn copy_range(data: &[u8], start: usize, end: usize) -> (piece: Vec<u8>)
    requires
        start <= end <= data@.len(),
    ensures
        piece@ == data@.subrange(start as int, end as int),
{
    let mut piece: Vec<u8> = Vec::new();
    let mut i: usize = start;
    while i < end
        invariant
            start <= i <= end,
            end <= data@.len(),
            piece@ == data@.subrange(start as int, i as int),
        decreases end - i,
    {
        piece.push(data[i]);
        i = i + 1;
        assert(piece@ =~= data@.subrange(start as int, i as int));
    }
    piece
}

/// Adding a multiple of `256 * d` to `r` leaves the byte of `r / d` unchanged.
proof fn lemma_byte_of_reduced(q: nat, r: nat, d: nat, m: nat)
    requires
        d > 0,
        m % 256 == 0,
    ensures
        ((q * (d * m) + r) / d) % 256 == (r / d) % 256,
{
    vstd::arithmetic::div_mod::lemma_hoist_over_denominator(r as int, (q * m) as int, d);
    assert(q * (d * m) == (q * m) * d) by (nonlinear_arith);
    let k = m / 256;
    assert(q * m == 256 * (q * k)) by (nonlinear_arith)
        requires
            m % 256 == 0,
            k == m / 256,
    ;
    vstd::arithmetic::div_mod::lemma_mod_multiples_vanish((q * k) as int, (r / d) as int, 256);
}

/// Only the low 32 bits of a number reach its written form.
pub proof fn lemma_word_bytes_low_bits(w: nat)
    ensures
        word_bytes(w % 0x1_0000_0000) == word_bytes(w),
{
    let q = w / 0x1_0000_0000;
    let r = w % 0x1_0000_0000;
    vstd::arithmetic::div_mod::lemma_fundamental_div_mod(w as int, 0x1_0000_0000);
    assert(w == q * 0x1_0000_0000 + r);
    lemma_byte_of_reduced(q, r, 1, 0x1_0000_0000);
    lemma_byte_of_reduced(q, r, 256, 16777216);
    lemma_byte_of_reduced(q, r, 65536, 65536);
    lemma_byte_of_reduced(q, r, 16777216, 256);
    assert(w / 1 == w && r / 1 == r);
    assert(word_bytes(r) =~= word_bytes(w));
}

} // verus!
