//! Small bit-vector facts used throughout the core: how setting or
//! clearing one flag bit affects the others, and how a 16-bit word
//! relates to its two bytes.

use vstd::prelude::*;

verus! {

/// The lowest bit of a byte is its parity.
pub proof fn lemma_u8_and_one()
    by (bit_vector)
    ensures
        forall|b: u8| #[trigger] (b & 1) == b % 2,
{
}

/// Setting the bits of `f` leaves any disjoint mask `g` unchanged.
pub proof fn lemma_u8_or_preserves()
    by (bit_vector)
    ensures
        forall|s: u8, f: u8, g: u8| f & g == 0 ==> #[trigger] ((s | f) & g) == s & g,
{
}

/// Clearing the bits of `f` leaves any disjoint mask `g` unchanged.
pub proof fn lemma_u8_andnot_preserves()
    by (bit_vector)
    ensures
        forall|s: u8, f: u8, g: u8| f & g == 0 ==> #[trigger] ((s & !f) & g) == s & g,
{
}

/// After `s | f`, every bit of `f` reads back set.
pub proof fn lemma_u8_or_sets()
    by (bit_vector)
    ensures
        forall|s: u8, f: u8| #[trigger] ((s | f) & f) == f,
{
}

/// After `s & !f`, every bit of `f` reads back clear.
pub proof fn lemma_u8_andnot_clears()
    by (bit_vector)
    ensures
        forall|s: u8, f: u8| #[trigger] ((s & !f) & f) == 0,
{
}

/// Bitwise AND commutes.
pub proof fn lemma_u8_and_comm()
    by (bit_vector)
    ensures
        forall|a: u8, b: u8| #[trigger] (a & b) == b & a,
{
}

/// The seven status-flag bits are pairwise disjoint.
pub proof fn lemma_flag_pairs()
    by (bit_vector)
    ensures
        0x01u8 & 0x02 == 0,
        0x01u8 & 0x04 == 0,
        0x01u8 & 0x08 == 0,
        0x01u8 & 0x10 == 0,
        0x01u8 & 0x40 == 0,
        0x01u8 & 0x80 == 0,
        0x02u8 & 0x04 == 0,
        0x02u8 & 0x08 == 0,
        0x02u8 & 0x10 == 0,
        0x02u8 & 0x40 == 0,
        0x02u8 & 0x80 == 0,
        0x04u8 & 0x08 == 0,
        0x04u8 & 0x10 == 0,
        0x04u8 & 0x40 == 0,
        0x04u8 & 0x80 == 0,
        0x08u8 & 0x10 == 0,
        0x08u8 & 0x40 == 0,
        0x08u8 & 0x80 == 0,
        0x10u8 & 0x40 == 0,
        0x10u8 & 0x80 == 0,
        0x40u8 & 0x80 == 0,
{
}

/// Setting bits can only grow a byte, so `s | f` is at least `f`.
pub proof fn lemma_u8_or_bound()
    by (bit_vector)
    ensures
        forall|s: u8, f: u8| #[trigger] (s | f) >= f && (s | f) >= s,
{
}

/// Masking can only turn bits off, so the result is bounded by the mask.
pub proof fn lemma_u8_mask_bound()
    by (bit_vector)
    ensures
        forall|s: u8, m: u8| #[trigger] (s & m) <= m,
{
}

/// Masking a 16-bit word can only turn bits off, so the result is
/// bounded by the mask.
pub proof fn lemma_u16_mask_bound()
    by (bit_vector)
    ensures
        forall|s: u16, m: u16| #[trigger] (s & m) <= m,
{
}


/// The OR of two 16-bit words is bounded by their sum.
pub proof fn lemma_u16_or_bound()
    by (bit_vector)
    ensures
        forall|a: u16, b: u16| #[trigger] (a | b) <= a + b,
{
}


/// OR-ing the same bits in twice changes nothing more.
pub proof fn lemma_u8_or_idem()
    by (bit_vector)
    ensures
        forall|s: u8, f: u8| #[trigger] ((s | f) | f) == s | f,
{
}


/// A byte shifted into the high half of a word leaves the low byte
/// clear, so it is at most 0xFF00.
pub proof fn lemma_u16_shl8_bound()
    by (bit_vector)
    ensures
        forall|d: u8| #[trigger] ((d as u16) << 8) <= 0xFF00,
{
}

} // verus!
