//! Mathematical model of the binary layout: little-endian words over byte
//! sequences, and the reverse direction (a word's bytes), with round-trip
//! lemmas connecting the two.

use vstd::prelude::*;

verus! {

/// The 16-bit little-endian value stored at byte offset `start`, widened to
/// 32 bits.
pub open spec fn le16_at(b: Seq<u8>, start: int) -> u32
    recommends
        0 <= start,
        start + 2 <= b.len(),
{
    (b[start] as u32) | ((b[start + 1] as u32) << 8)
}

/// The 32-bit little-endian value stored at byte offset `start`.
pub open spec fn le32_at(b: Seq<u8>, start: int) -> u32
    recommends
        0 <= start,
        start + 4 <= b.len(),
{
    (b[start] as u32) | ((b[start + 1] as u32) << 8) | ((b[start + 2] as u32) << 16) | ((b[start
        + 3] as u32) << 24)
}

/// The 32-bit little-endian word in 4-byte-aligned slot `slot`.
pub open spec fn word_at(b: Seq<u8>, slot: int) -> u32
    recommends
        0 <= slot,
        slot * 4 + 4 <= b.len(),
{
    le32_at(b, slot * 4)
}

/// The four bytes of `w`, least significant first.
pub open spec fn le32_bytes(w: u32) -> Seq<u8> {
    seq![
        (w & 0xFF) as u8,
        ((w >> 8) & 0xFF) as u8,
        ((w >> 16) & 0xFF) as u8,
        ((w >> 24) & 0xFF) as u8,
    ]
}

/// The byte encoding of a sequence of 32-bit words, each little-endian, in
/// slot order.
pub open spec fn words_bytes(ws: Seq<u32>) -> Seq<u8>
    decreases ws.len(),
{
    if ws.len() == 0 {
        Seq::<u8>::empty()
    } else {
        le32_bytes(ws[0]) + words_bytes(ws.skip(1))
    }
}

/// Law: reading back the four bytes of a word recovers the word.
pub proof fn lemma_le32_round_trip(w: u32)
    ensures
        le32_at(le32_bytes(w), 0) == w,
{
    assert(((w & 0xFF) as u8 as u32) | (((w >> 8) & 0xFF) as u8 as u32) << 8 | (((w >> 16)
        & 0xFF) as u8 as u32) << 16 | (((w >> 24) & 0xFF) as u8 as u32) << 24 == w)
        by (bit_vector);
}

pub proof fn lemma_words_bytes_len(ws: Seq<u32>)
    ensures
        words_bytes(ws).len() == 4 * ws.len(),
    decreases ws.len(),
{
    if ws.len() > 0 {
        lemma_words_bytes_len(ws.skip(1));
    }
}

/// Byte `4 * i + k` of an encoded word sequence is byte `k` of word `i`.
pub proof fn lemma_words_bytes_index(ws: Seq<u32>, i: int, k: int)
    requires
        0 <= i < ws.len(),
        0 <= k < 4,
    ensures
        words_bytes(ws)[4 * i + k] == le32_bytes(ws[i])[k],
    decreases i,
{
    lemma_words_bytes_len(ws.skip(1));
    if i > 0 {
        lemma_words_bytes_index(ws.skip(1), i - 1, k);
        assert(words_bytes(ws)[4 * i + k] == words_bytes(ws.skip(1))[4 * (i - 1) + k]);
    }
}

/// Law: encoding a sequence of words and decoding any slot recovers the word
/// that was put there.
pub proof fn lemma_words_round_trip(ws: Seq<u32>)
    ensures
        forall|i: int| 0 <= i < ws.len() ==> word_at(words_bytes(ws), i) == ws[i],
    decreases ws.len(),
{
    if ws.len() > 0 {
        lemma_words_bytes_len(ws.skip(1));
        lemma_words_round_trip(ws.skip(1));
        let b = words_bytes(ws);
        let rest = words_bytes(ws.skip(1));
        assert forall|i: int| 0 <= i < ws.len() implies word_at(b, i) == ws[i] by {
            if i == 0 {
                lemma_le32_round_trip(ws[0]);
                assert(le32_at(b, 0) == le32_at(le32_bytes(ws[0]), 0));
            } else {
                assert(word_at(rest, i - 1) == ws.skip(1)[i - 1]);
                assert(b[4 * i] == rest[4 * (i - 1)]);
                assert(b[4 * i + 1] == rest[4 * (i - 1) + 1]);
                assert(b[4 * i + 2] == rest[4 * (i - 1) + 2]);
                assert(b[4 * i + 3] == rest[4 * (i - 1) + 3]);
                assert(le32_at(b, 4 * i) == le32_at(rest, 4 * (i - 1)));
            }
        }
    }
}

} // verus!
