//! Trusted view of `fixedbitset::FixedBitSet`, the bit container that backs a
//! collision mask. The set is kept opaque; its contents are named by `bits`,
//! and each method the library calls gets a wrapper whose contract states what
//! the crate's source shows.

use vstd::prelude::*;

verus! {

#[verifier::external_type_specification]
#[verifier::external_body]
pub struct ExFixedBitSet(fixedbitset::FixedBitSet);

/// The bits that a `fixedbitset::FixedBitSet` holds, in index order.
pub uninterp spec fn bits(b: fixedbitset::FixedBitSet) -> Seq<bool>;

/// Relies on `fixedbitset::FixedBitSet::clone`: the clone copies the blocks
/// and the length, so it holds the same bits.
pub assume_specification[ <fixedbitset::FixedBitSet as Clone>::clone ](
    b: &fixedbitset::FixedBitSet,
) -> (r: fixedbitset::FixedBitSet)
    ensures
        bits(r) == bits(*b),
;

/// Relies on `fixedbitset::FixedBitSet::with_capacity`: creates a set with
/// `nbits` bits, all initially clear.
#[verifier::external_body]
pub fn bitset_with_capacity(nbits: usize) -> (r: fixedbitset::FixedBitSet)
    ensures
        bits(r).len() == nbits,
        forall|i: int| 0 <= i < nbits ==> bits(r)[i] == false,
{
    fixedbitset::FixedBitSet::with_capacity(nbits)
}

/// Relies on `fixedbitset::FixedBitSet::set`: sets bit `bit` to `enabled` and
/// leaves every other bit alone. It panics on an out-of-bounds index, so that
/// case is excluded by `requires`.
#[verifier::external_body]
pub fn bitset_set(b: &mut fixedbitset::FixedBitSet, bit: usize, enabled: bool)
    requires
        bit < bits(*old(b)).len(),
    ensures
        bits(*final(b)) == bits(*old(b)).update(bit as int, enabled),
{
    b.set(bit, enabled);
}

/// Relies on `fixedbitset::FixedBitSet::contains`: true exactly for an
/// in-bounds bit that is set; bits outside the capacity read as clear.
#[verifier::external_body]
pub fn bitset_contains(b: &fixedbitset::FixedBitSet, bit: usize) -> (r: bool)
    ensures
        r == (bit < bits(*b).len() && bits(*b)[bit as int]),
{
    b.contains(bit)
}

/// Relies on `fixedbitset::FixedBitSet::len`: the number of bits the set was
/// created with, set and unset alike.
#[verifier::external_body]
pub fn bitset_len(b: &fixedbitset::FixedBitSet) -> (r: usize)
    ensures
        r == bits(*b).len(),
{
    b.len()
}

} // verus!
