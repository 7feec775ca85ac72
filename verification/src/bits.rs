//! Word-level facts about the bitwise operations that the register model is
//! built from. Every register write is an OR, an AND-with-complement or an
//! XOR against a pin mask, so these lemmas carry the whole isolation story:
//! what a write does to its own bits, and that it leaves disjoint bits alone.

use vstd::prelude::*;

verus! {

/// Bits set with OR read back as set.
pub proof fn lemma_or_sets(w: u32, m: u32)
    by (bit_vector)
    ensures
        (w | m) & m == m,
{
}

/// Bits cleared with AND-complement read back as clear.
pub proof fn lemma_andnot_clears(w: u32, m: u32)
    by (bit_vector)
    ensures
        (w & !m) & m == 0,
{
}

/// Setting bits of a disjoint mask leaves the observed bits unchanged.
pub proof fn lemma_or_disjoint(w: u32, m: u32, other: u32)
    by (bit_vector)
    requires
        m & other == 0,
    ensures
        (w | other) & m == w & m,
{
}

/// Clearing bits of a disjoint mask leaves the observed bits unchanged.
pub proof fn lemma_andnot_disjoint(w: u32, m: u32, other: u32)
    by (bit_vector)
    requires
        m & other == 0,
    ensures
        (w & !other) & m == w & m,
{
}

/// Toggling bits of a disjoint mask leaves the observed bits unchanged.
pub proof fn lemma_xor_disjoint(w: u32, m: u32, other: u32)
    by (bit_vector)
    requires
        m & other == 0,
    ensures
        (w ^ other) & m == w & m,
{
}

/// Toggling the same bits twice restores the word.
pub proof fn lemma_xor_twice(w: u32, m: u32)
    by (bit_vector)
    ensures
        (w ^ m) ^ m == w,
{
}

/// A level multiplexer word, built from a direction word `d`, an output latch
/// `o` and an externally sensed word `e`, shows the output latch on the bits
/// whose direction is set.
pub proof fn lemma_mux_reads_output(d: u32, o: u32, e: u32, m: u32)
    by (bit_vector)
    requires
        d & m == m,
    ensures
        ((d & o) | (!d & e)) & m == o & m,
{
}

/// The same multiplexer shows the externally sensed word on the bits whose
/// direction is clear.
pub proof fn lemma_mux_reads_external(d: u32, o: u32, e: u32, m: u32)
    by (bit_vector)
    requires
        d & m == 0,
    ensures
        ((d & o) | (!d & e)) & m == e & m,
{
}

/// The multiplexed level depends only on the masked bits of its three inputs:
/// if none of them changed under the mask, the observed level did not either.
pub proof fn lemma_mux_masked_congruence(
    d1: u32,
    o1: u32,
    e1: u32,
    d2: u32,
    o2: u32,
    e2: u32,
    m: u32,
)
    by (bit_vector)
    requires
        d1 & m == d2 & m,
        o1 & m == o2 & m,
        e1 & m == e2 & m,
    ensures
        ((d1 & o1) | (!d1 & e1)) & m == ((d2 & o2) | (!d2 & e2)) & m,
{
}

/// A single-bit mask is never zero.
pub proof fn lemma_single_bit_nonzero(b: u32)
    by (bit_vector)
    requires
        b < 32,
    ensures
        (1u32 << b) != 0,
{
}

/// Two different bit positions give disjoint single-bit masks.
pub proof fn lemma_single_bits_disjoint(a: u32, b: u32)
    by (bit_vector)
    requires
        a < 32,
        b < 32,
        a != b,
    ensures
        (1u32 << a) & (1u32 << b) == 0,
{
}

/// Toggling a single bit flips whether it reads as set.
pub proof fn lemma_xor_flips(w: u32, b: u32)
    by (bit_vector)
    requires
        b < 32,
    ensures
        ((w ^ (1u32 << b)) & (1u32 << b) == (1u32 << b)) <==> (w & (1u32 << b) == 0),
{
}

/// Under a single-bit mask, a word either shows the whole mask or nothing.
pub proof fn lemma_single_bit_dichotomy(w: u32, b: u32)
    by (bit_vector)
    requires
        b < 32,
    ensures
        w & (1u32 << b) == (1u32 << b) || w & (1u32 << b) == 0,
{
}

} // verus!
