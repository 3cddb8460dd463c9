//! The 9-bit frame codec.
//!
//! The wire unit is 9 bits: 8 data bits and one auxiliary bit. At this
//! driver's boundary every frame is exactly two bytes — the data byte at
//! the even index, then a byte whose low bit is the auxiliary bit — and
//! each frame travels through the engine as one 32-bit FIFO word holding
//! the data bits at bit positions 8..16 and the auxiliary bit at bit 0.

use vstd::prelude::*;
use vstd::arithmetic::div_mod::{lemma_fundamental_div_mod_converse, lemma_mod_bound};

verus! {

/// The FIFO word that carries one frame: data byte `data`, auxiliary
/// bit `aux & 1`.
pub open spec fn frame_word(data: u8, aux: u8) -> u32 {
    (256 * data + (aux % 2)) as u32
}

/// The data byte a received word carries (its bits 8..16).
pub open spec fn word_data(w: u32) -> u8 {
    ((w / 256) % 256) as u8
}

/// The auxiliary byte a received word carries (its lowest bit).
pub open spec fn word_aux(w: u32) -> u8 {
    (w % 2) as u8
}

/// The words pushed for a byte buffer: one per complete two-byte frame,
/// in order. A trailing odd byte contributes no word.
pub open spec fn words_of_bytes(bytes: Seq<u8>) -> Seq<u32> {
    Seq::new(bytes.len() / 2, |i: int| frame_word(bytes[2 * i], bytes[2 * i + 1]))
}

/// The bytes delivered for a sequence of received words: each word
/// yields its data byte, then its auxiliary byte.
pub open spec fn bytes_of_words(words: Seq<u32>) -> Seq<u8> {
    Seq::new(
        2 * words.len(),
        |i: int| if i % 2 == 0 { word_data(words[i / 2]) } else { word_aux(words[i / 2]) },
    )
}

/// Assemble the FIFO word for one frame.
pub fn pack_frame(data: u8, aux: u8) -> (w: u32)
    ensures
        w == frame_word(data, aux),
{
    256 * (data as u32) + ((aux as u32) % 2)
}

/// The data byte of a received word.
pub fn unpack_data(w: u32) -> (d: u8)
    ensures
        d == word_data(w),
{
    proof {
        lemma_mod_bound((w / 256) as int, 256);
    }
    ((w / 256) % 256) as u8
}

/// The auxiliary byte of a received word.
pub fn unpack_aux(w: u32) -> (a: u8)
    ensures
        a == word_aux(w),
{
    proof {
        lemma_mod_bound(w as int, 2);
    }
    (w % 2) as u8
}

/// Decoding the word for a frame gives the frame's data byte back.
pub proof fn lemma_word_data_of_frame(data: u8, aux: u8)
    ensures
        word_data(frame_word(data, aux)) == data,
{
    let w = frame_word(data, aux) as int;
    lemma_fundamental_div_mod_converse(w, 256, data as int, (aux % 2) as int);
    lemma_fundamental_div_mod_converse(data as int, 256, 0, data as int);
}

/// Decoding the word for a frame gives the frame's auxiliary bit back.
pub proof fn lemma_word_aux_of_frame(data: u8, aux: u8)
    ensures
        word_aux(frame_word(data, aux)) == aux % 2,
{
    let w = frame_word(data, aux) as int;
    lemma_fundamental_div_mod_converse(w, 2, 128 * data, (aux % 2) as int);
}

/// Law: a round trip through the codec is the identity. Any even-length
/// buffer whose auxiliary bytes are already reduced to the single bit
/// they carry is returned unchanged by encoding it to words and decoding
/// the words back to bytes.
pub proof fn lemma_frame_round_trip(bytes: Seq<u8>)
    requires
        bytes.len() % 2 == 0,
        forall|i: int| 0 <= i < bytes.len() && i % 2 == 1 ==> bytes[i] == 0 || bytes[i] == 1,
    ensures
        bytes_of_words(words_of_bytes(bytes)) == bytes,
{
    let words = words_of_bytes(bytes);
    let decoded = bytes_of_words(words);
    assert(decoded.len() == bytes.len());
    assert forall|i: int| 0 <= i < bytes.len() implies decoded[i] == bytes[i] by {
        if i % 2 == 0 {
            lemma_fundamental_div_mod_converse(i, 2, i / 2, 0);
            assert(2 * (i / 2) == i);
            lemma_word_data_of_frame(bytes[i], bytes[i + 1]);
        } else {
            lemma_fundamental_div_mod_converse(i, 2, i / 2, 1);
            assert(2 * (i / 2) == i - 1);
            lemma_word_aux_of_frame(bytes[i - 1], bytes[i]);
        }
    }
    assert(decoded =~= bytes);
}

} // verus!
