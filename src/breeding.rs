//! Deriving a child's dna from two parents and a random selector.

use vstd::prelude::*;

verus! {

/// One byte of a child: each bit comes from `a` where the selector bit is 1
/// and from `b` where it is 0.
pub open spec fn mix_byte(a: u8, b: u8, selector: u8) -> u8 {
    (a & selector) | (b & !selector)
}

/// A child's dna, byte by byte.
pub open spec fn mix_dna(a: Seq<u8>, b: Seq<u8>, selector: Seq<u8>) -> Seq<u8> {
    Seq::new(16, |i: int| mix_byte(a[i], b[i], selector[i]))
}

/// Bit `j` of `x`.
pub open spec fn bit(x: u8, j: u8) -> bool {
    (x >> j) & 1 == 1
}

/// The bits on which the parents differ are all taken from the same parent.
pub open spec fn one_sided(a: u8, b: u8, selector: u8) -> bool {
    (a ^ b) & selector == 0 || (a ^ b) & !selector == 0
}

/// Mixes two parents' dna under `selector`.
pub fn breed_dna(a: &[u8; 16], b: &[u8; 16], selector: &[u8; 16]) -> (r: [u8; 16])
    ensures
        r@ == mix_dna(a@, b@, selector@),
{
    let mut data = [0u8; 16];
    let mut i: usize = 0;
    while i < 16
        invariant
            i <= 16,
            forall|k: int| 0 <= k < i ==> data@[k] == mix_byte(a@[k], b@[k], selector@[k]),
        decreases 16 - i,
    {
        data[i] = (a[i] & selector[i]) | (b[i] & !selector[i]);
        i += 1;
    }
    assert(data@ =~= mix_dna(a@, b@, selector@));
    data
}

proof fn lemma_mix_byte_bits(a: u8, b: u8, s: u8)
    by (bit_vector)
    ensures
        forall|j: u8|
            j < 8 ==> (#[trigger] bit(mix_byte(a, b, s), j) == if bit(s, j) {
                bit(a, j)
            } else {
                bit(b, j)
            }),
{
}

proof fn lemma_mix_byte_from_one_parent(a: u8, b: u8, s: u8)
    by (bit_vector)
    ensures
        (mix_byte(a, b, s) == a || mix_byte(a, b, s) == b) <==> one_sided(a, b, s),
{
}

/// Every bit of a child's dna is the same bit of parent `a` where the
/// selector bit is set, and of parent `b` where it is clear.
pub proof fn lemma_child_bits_from_parents(a: Seq<u8>, b: Seq<u8>, selector: Seq<u8>)
    ensures
        forall|i: int, j: u8|
            0 <= i < 16 && j < 8 ==> #[trigger] bit(mix_dna(a, b, selector)[i], j) == if bit(
                selector[i],
                j,
            ) {
                bit(a[i], j)
            } else {
                bit(b[i], j)
            },
{
    assert forall|i: int, j: u8| 0 <= i < 16 && j < 8 implies #[trigger] bit(
        mix_dna(a, b, selector)[i],
        j,
    ) == if bit(selector[i], j) {
        bit(a[i], j)
    } else {
        bit(b[i], j)
    } by {
        lemma_mix_byte_bits(a[i], b[i], selector[i]);
    }
}

/// A child's dna byte equals the byte of one parent at the same position
/// exactly when the bits on which the parents differ there all come from the
/// same parent; where that holds at every position, every byte of the child
/// is one of its parents' bytes.
pub proof fn lemma_child_bytes_from_parents(a: Seq<u8>, b: Seq<u8>, selector: Seq<u8>)
    ensures
        forall|i: int|
            0 <= i < 16 ==> ((#[trigger] mix_dna(a, b, selector)[i] == a[i] || mix_dna(
                a,
                b,
                selector,
            )[i] == b[i]) <==> one_sided(a[i], b[i], selector[i])),
{
    assert forall|i: int| 0 <= i < 16 implies ((#[trigger] mix_dna(a, b, selector)[i] == a[i]
        || mix_dna(a, b, selector)[i] == b[i]) <==> one_sided(a[i], b[i], selector[i])) by {
        lemma_mix_byte_from_one_parent(a[i], b[i], selector[i]);
    }
}

} // verus!
