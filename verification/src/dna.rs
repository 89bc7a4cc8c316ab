//! Genes of a bred kitty: each bit is taken from one parent or the other, as a random
//! selector decides.

use vstd::prelude::*;

verus! {

/// The byte of a child whose parents have bytes `a` and `b`: the bits set in `selector`
/// come from `a`, the others from `b`.
pub open spec fn mixed_byte(a: u8, b: u8, selector: u8) -> u8 {
    (a & selector) | (b & !selector)
}

/// `child` holds, byte by byte, the mix of `a` and `b` under `selector`.
pub open spec fn is_mix(a: [u8; 16], b: [u8; 16], selector: [u8; 16], child: [u8; 16]) -> bool {
    forall|i: int| 0 <= i < 16 ==> #[trigger] child[i] == mixed_byte(a[i], b[i], selector[i])
}

/// The genes of a child whose parents have genes `a` and `b`, under `selector`.
pub open spec fn mixed_dna(a: [u8; 16], b: [u8; 16], selector: [u8; 16]) -> [u8; 16] {
    choose|child: [u8; 16]| is_mix(a, b, selector, child)
}

/// The genes `a` with their first `n` bytes replaced by the mix of `a` and `b` under
/// `selector`.
pub open spec fn partly_mixed(a: [u8; 16], b: [u8; 16], selector: [u8; 16], n: nat) -> [u8; 16]
    decreases n,
{
    if n == 0 {
        a
    } else {
        let i = n - 1;
        vstd::array::spec_array_update(
            partly_mixed(a, b, selector, i as nat),
            i,
            mixed_byte(a[i], b[i], selector[i]),
        )
    }
}

/// The first `n` bytes of `partly_mixed` are mixed; the others are those of `a`.
pub proof fn lemma_partly_mixed(a: [u8; 16], b: [u8; 16], selector: [u8; 16], n: nat)
    requires
        n <= 16,
    ensures
        forall|j: int|
            0 <= j < 16 ==> #[trigger] partly_mixed(a, b, selector, n)[j] == if j < n {
                mixed_byte(a[j], b[j], selector[j])
            } else {
                a[j]
            },
    decreases n,
{
    if n > 0 {
        lemma_partly_mixed(a, b, selector, (n - 1) as nat);
        let prev = partly_mixed(a, b, selector, (n - 1) as nat);
        let i = n - 1;
        assert(partly_mixed(a, b, selector, n)@ == prev@.update(
            i,
            mixed_byte(a[i], b[i], selector[i]),
        ));
    }
}

/// The genes `mixed_dna` picks are the mix: byte `i` is `mixed_byte(a[i], b[i], selector[i])`.
pub proof fn lemma_mixed_dna_is_mix(a: [u8; 16], b: [u8; 16], selector: [u8; 16])
    ensures
        is_mix(a, b, selector, mixed_dna(a, b, selector)),
{
    lemma_partly_mixed(a, b, selector, 16);
    let witness = partly_mixed(a, b, selector, 16);
    assert(is_mix(a, b, selector, witness));
}

/// Byte `i` of a child's genes takes the bits that `selector[i]` sets from `a[i]` and the
/// bits it clears from `b[i]`.
pub proof fn law_child_genes_come_from_the_selected_parent(a: [u8; 16], b: [u8; 16], selector: [u8; 16])
    ensures
        forall|i: int|
            0 <= i < 16 ==> #[trigger] mixed_dna(a, b, selector)[i] == ((a[i] & selector[i]) | (b[i]
                & !selector[i])),
{
    lemma_mixed_dna_is_mix(a, b, selector);
}

/// A bit that both parents share is in the child, and the child has no bit that neither
/// parent has.
pub proof fn lemma_mixed_byte_bounds(a: u8, b: u8, selector: u8)
    ensures
        (a & b) & !mixed_byte(a, b, selector) == 0,
        mixed_byte(a, b, selector) & !(a | b) == 0,
{
    assert((a & b) & !((a & selector) | (b & !selector)) == 0) by (bit_vector);
    assert(((a & selector) | (b & !selector)) & !(a | b) == 0) by (bit_vector);
}

/// Mixes the genes of two parents: byte `i` of the child is
/// `(a[i] & selector[i]) | (b[i] & !selector[i])`.
pub fn mix_dna(a: &[u8; 16], b: &[u8; 16], selector: &[u8; 16]) -> (child: [u8; 16])
    ensures
        child == mixed_dna(*a, *b, *selector),
        is_mix(*a, *b, *selector, child),
        forall|i: int|
            0 <= i < 16 ==> (a[i] & b[i]) & !(#[trigger] child[i]) == 0 && child[i] & !(a[i]
                | b[i]) == 0,
{
    let mut dna: [u8; 16] = [0u8; 16];
    let mut i: usize = 0;
    while i < 16
        invariant
            0 <= i <= 16,
            forall|j: int| 0 <= j < i ==> #[trigger] dna[j] == mixed_byte(a[j], b[j], selector[j]),
        decreases 16 - i,
    {
        dna[i] = (a[i] & selector[i]) | (b[i] & !selector[i]);
        i = i + 1;
    }
    proof {
        assert(is_mix(*a, *b, *selector, dna));
        let chosen = mixed_dna(*a, *b, *selector);
        assert(is_mix(*a, *b, *selector, chosen));
        assert(chosen =~= dna);
        assert forall|j: int| 0 <= j < 16 implies (a[j] & b[j]) & !(#[trigger] dna[j]) == 0
            && dna[j] & !(a[j] | b[j]) == 0 by {
            lemma_mixed_byte_bounds(a[j], b[j], selector[j]);
        }
    }
    dna
}

} // verus!
