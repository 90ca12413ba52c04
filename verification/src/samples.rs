//! Sample precision: between the depth a source stores and the 16 bits of the
//! canonical buffer.
//!
//! A source that stores fewer than 16 bits per sample is left-justified on load,
//! so the canonical buffer always spans 0..=65535, and right-justified again on
//! save, so the file gets back samples of the depth its tags declare.

use crate::display::{intensity, intensity_of, Polarity};
use vstd::prelude::*;

verus! {

/// The mask of the `bits` low bits of a 16-bit word, for `bits` from 1 to 16.
pub open spec fn low_mask(bits: u16) -> u16 {
    0xffffu16 >> ((16 - bits) as u16)
}

/// The canonical sample of a stored word: its `bits` low bits, moved up to the
/// top of the 16-bit range.  Bits of the word above the stored ones are dropped.
pub open spec fn left_justified(word: u16, bits: u16) -> u16 {
    (word & low_mask(bits)) << ((16 - bits) as u16)
}

/// The stored word of a canonical sample: its `bits` high bits, moved down.
pub open spec fn right_justified(sample: u16, bits: u16) -> u16 {
    sample >> ((16 - bits) as u16)
}

/// The canonical samples of the stored words of a frame.
pub open spec fn normalized(words: Seq<u16>, bits: u16) -> Seq<u16> {
    Seq::new(words.len(), |i: int| left_justified(words[i], bits))
}

/// The stored words of the samples of a canonical buffer.
pub open spec fn repacked(samples: Seq<u16>, bits: u16) -> Seq<u16> {
    Seq::new(samples.len(), |i: int| right_justified(samples[i], bits))
}

/// The samples of a canonical buffer reduced to their high bytes.
pub open spec fn reduced(samples: Seq<u16>) -> Seq<u8> {
    Seq::new(samples.len(), |i: int| intensity(samples[i], Polarity::Direct))
}

/// Saving what was loaded gives back the stored bits of every word.
pub proof fn justify_round_trip(word: u16, bits: u16)
    requires
        1 <= bits <= 16,
    ensures
        right_justified(left_justified(word, bits), bits) == word & low_mask(bits),
        word <= low_mask(bits) ==> right_justified(left_justified(word, bits), bits) == word,
{
    let shift: u16 = (16 - bits) as u16;
    assert((((word & (0xffffu16 >> shift)) << shift) >> shift) == word & (0xffffu16 >> shift))
        by (bit_vector)
        requires
            shift < 16,
    ;
    assert(word <= (0xffffu16 >> shift) ==> word & (0xffffu16 >> shift) == word) by (bit_vector)
        requires
            shift < 16,
    ;
}

/// Saving a frame that was loaded gives back every word that fits the depth it
/// is stored at.
pub proof fn frame_round_trip(words: Seq<u16>, bits: u16)
    requires
        1 <= bits <= 16,
        forall|i: int| 0 <= i < words.len() ==> words[i] <= low_mask(bits),
    ensures
        repacked(normalized(words, bits), bits) == words,
{
    assert forall|i: int| 0 <= i < words.len() implies repacked(normalized(words, bits), bits)[i]
        == words[i] by {
        justify_round_trip(words[i], bits);
    }
    assert(repacked(normalized(words, bits), bits) =~= words);
}

/// A source that stores all 16 bits is taken over as it is.
pub proof fn full_depth_is_kept(word: u16)
    ensures
        left_justified(word, 16) == word,
        right_justified(word, 16) == word,
{
    assert(((word & (0xffffu16 >> 0u16)) << 0u16) == word) by (bit_vector);
    assert((word >> 0u16) == word) by (bit_vector);
}

/// A blacked-out sample is saved as 0 at every depth.
pub proof fn black_stays_black(bits: u16)
    requires
        1 <= bits <= 16,
    ensures
        right_justified(0, bits) == 0,
        left_justified(0, bits) == 0,
{
    let shift: u16 = (16 - bits) as u16;
    assert((0u16 >> shift) == 0) by (bit_vector);
    assert(((0u16 & (0xffffu16 >> shift)) << shift) == 0) by (bit_vector);
}

/// A stored word never exceeds the depth it is stored at.
pub proof fn stored_word_fits(sample: u16, bits: u16)
    requires
        1 <= bits <= 16,
    ensures
        right_justified(sample, bits) <= low_mask(bits),
{
    let shift: u16 = (16 - bits) as u16;
    assert((sample >> shift) <= (0xffffu16 >> shift)) by (bit_vector)
        requires
            shift < 16,
    ;
}

/// The canonical sample of a stored word.
pub fn left_justify(word: u16, bits: u16) -> (r: u16)
    requires
        1 <= bits <= 16,
    ensures
        r == left_justified(word, bits),
{
    let shift: u16 = 16 - bits;
    (word & (0xffffu16 >> shift)) << shift
}

/// The stored word of a canonical sample.
pub fn right_justify(sample: u16, bits: u16) -> (r: u16)
    requires
        1 <= bits <= 16,
    ensures
        r == right_justified(sample, bits),
{
    let shift: u16 = 16 - bits;
    sample >> shift
}

/// The canonical samples of the stored words of a frame.
pub fn normalize(words: &Vec<u16>, bits: u16) -> (r: Vec<u16>)
    requires
        1 <= bits <= 16,
    ensures
        r@ == normalized(words@, bits),
{
    let mut out: Vec<u16> = Vec::new();
    let mut i: usize = 0;
    while i < words.len()
        invariant
            1 <= bits <= 16,
            i <= words@.len(),
            out@.len() == i,
            forall|j: int| 0 <= j < i ==> #[trigger] out@[j] == left_justified(words@[j], bits),
        decreases words@.len() - i,
    {
        out.push(left_justify(words[i], bits));
        i = i + 1;
    }
    assert(out@ =~= normalized(words@, bits));
    out
}

/// The stored words of the samples of a canonical buffer.
pub fn repack(samples: &Vec<u16>, bits: u16) -> (r: Vec<u16>)
    requires
        1 <= bits <= 16,
    ensures
        r@ == repacked(samples@, bits),
{
    let mut out: Vec<u16> = Vec::new();
    let mut i: usize = 0;
    while i < samples.len()
        invariant
            1 <= bits <= 16,
            i <= samples@.len(),
            out@.len() == i,
            forall|j: int| 0 <= j < i ==> #[trigger] out@[j] == right_justified(samples@[j], bits),
        decreases samples@.len() - i,
    {
        out.push(right_justify(samples[i], bits));
        i = i + 1;
    }
    assert(out@ =~= repacked(samples@, bits));
    out
}

/// The samples of a canonical buffer reduced to 8 bits, for a raster format that
/// holds no more: the high byte of each.
pub fn reduce_to_bytes(samples: &Vec<u16>) -> (r: Vec<u8>)
    ensures
        r@ == reduced(samples@),
{
    let mut out: Vec<u8> = Vec::new();
    let mut i: usize = 0;
    while i < samples.len()
        invariant
            i <= samples@.len(),
            out@.len() == i,
            forall|j: int|
                0 <= j < i ==> #[trigger] out@[j] == intensity(samples@[j], Polarity::Direct),
        decreases samples@.len() - i,
    {
        out.push(intensity_of(samples[i], Polarity::Direct));
        i = i + 1;
    }
    assert(out@ =~= reduced(samples@));
    out
}

} // verus!
