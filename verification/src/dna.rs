//! Deterministic genetic recombination.
//!
//! A genome is a fixed sequence of [`GENOME_LEN`] bytes.  A child genome is
//! produced byte by byte from two parent genomes and a selector mask: each
//! child bit comes from the first parent where the corresponding selector
//! bit is 1, and from the second parent where it is 0.

use vstd::prelude::*;

verus! {

/// Number of bytes in a genome.
pub const GENOME_LEN: usize = 16;

/// What one combined byte is: bits of `dna1` where `selector` is 1,
/// bits of `dna2` where it is 0.
pub open spec fn spec_combine_byte(dna1: u8, dna2: u8, selector: u8) -> u8 {
    (selector & dna1) | (!selector & dna2)
}

/// A whole combined genome, byte by byte.
pub open spec fn spec_combine_genome(dna1: Seq<u8>, dna2: Seq<u8>, selector: Seq<u8>) -> Seq<u8> {
    Seq::new(dna1.len(), |i: int| spec_combine_byte(dna1[i], dna2[i], selector[i]))
}

/// Combines one byte of each parent under one byte of the selector mask.
pub fn combine_dna(dna1: u8, dna2: u8, selector: u8) -> (r: u8)
    ensures
        r == spec_combine_byte(dna1, dna2, selector),
{
    (selector & dna1) | (!selector & dna2)
}

/// Combines two parent genomes under a selector mask, byte by byte.
pub fn combine_genome(dna1: &[u8; 16], dna2: &[u8; 16], selector: &[u8; 16]) -> (r: [u8; 16])
    ensures
        r@ == spec_combine_genome(dna1@, dna2@, selector@),
{
    let mut out: [u8; 16] = [0u8; 16];
    let mut i: usize = 0;
    while i < GENOME_LEN
        invariant
            i <= 16,
            forall|j: int| 0 <= j < i ==> out@[j] == spec_combine_byte(dna1@[j], dna2@[j], selector@[j]),
        decreases 16 - i,
    {
        out[i] = combine_dna(dna1[i], dna2[i], selector[i]);
        i += 1;
    }
    proof {
        assert(out@ =~= spec_combine_genome(dna1@, dna2@, selector@));
    }
    out
}

/// Law: recombination is deterministic — the same parents under the same
/// selector always give the same child genome.
pub proof fn lemma_combine_deterministic(dna1: Seq<u8>, dna2: Seq<u8>, s1: Seq<u8>, s2: Seq<u8>)
    requires
        s1 == s2,
    ensures
        spec_combine_genome(dna1, dna2, s1) == spec_combine_genome(dna1, dna2, s2),
{
}

/// Law: combining a genome with itself reproduces it — whatever the
/// selector, breeding two identical parents gives an identical child.
pub proof fn lemma_combine_same_parents(dna: Seq<u8>, selector: Seq<u8>)
    requires
        dna.len() == selector.len(),
    ensures
        spec_combine_genome(dna, dna, selector) == dna,
{
    assert forall|i: int| 0 <= i < dna.len() implies spec_combine_byte(dna[i], dna[i], selector[i])
        == dna[i] by {
        let (d, s) = (dna[i], selector[i]);
        assert((s & d) | (!s & d) == d) by (bit_vector);
    }
    assert(spec_combine_genome(dna, dna, selector) =~= dna);
}

/// Law: an all-ones selector byte copies the first parent, an all-zeros
/// selector byte copies the second.
pub proof fn lemma_combine_byte_extremes(dna1: u8, dna2: u8)
    ensures
        spec_combine_byte(dna1, dna2, 0xff) == dna1,
        spec_combine_byte(dna1, dna2, 0x00) == dna2,
{
    assert((0xffu8 & dna1) | (!0xffu8 & dna2) == dna1) by (bit_vector);
    assert((0x00u8 & dna1) | (!0x00u8 & dna2) == dna2) by (bit_vector);
}

} // verus!
