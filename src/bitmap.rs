//! The validity bitmap of a column, held in a `bitvec::vec::BitVec`.
use bitvec::vec::BitVec;
use vstd::prelude::*;

verus! {

/// A growable sequence of bits. Verus sees it through `bits_of` only.
#[verifier::external_body]
pub struct Bitmap {
    bits: BitVec,
}

/// The largest number of bits that a `BitVec` can hold (`BitSlice::MAX_BITS`).
pub const MAX_BITS: usize = usize::MAX >> 3;

/// The bits held by a bitmap, in order.
pub uninterp spec fn bits_of(b: Bitmap) -> Seq<bool>;

/// Relies on `BitVec::with_capacity`: a new bit-vector is empty; it panics
/// only above `MAX_BITS`.
#[verifier::external_body]
pub(crate) fn bitmap_with_capacity(capacity: usize) -> (r: Bitmap)
    requires
        capacity <= MAX_BITS,
    ensures
        bits_of(r) == Seq::<bool>::empty(),
{
    Bitmap { bits: BitVec::with_capacity(capacity) }
}

/// Relies on `BitVec::push`: appends one bit; it panics only when the new
/// length would exceed `MAX_BITS`.
#[verifier::external_body]
pub(crate) fn bitmap_push(b: &mut Bitmap, value: bool)
    requires
        bits_of(*old(b)).len() < MAX_BITS,
    ensures
        bits_of(*final(b)) == bits_of(*old(b)).push(value),
{
    b.bits.push(value)
}

/// Relies on `BitVec::len`: the number of bits held.
#[verifier::external_body]
pub(crate) fn bitmap_len(b: &Bitmap) -> (r: usize)
    ensures
        r == bits_of(*b).len(),
{
    b.bits.len()
}

/// Relies on indexing a `BitSlice` by `usize`: the bit at that position; it
/// panics only out of bounds.
#[verifier::external_body]
pub(crate) fn bitmap_get(b: &Bitmap, idx: usize) -> (r: bool)
    requires
        idx < bits_of(*b).len(),
    ensures
        r == bits_of(*b)[idx as int],
{
    b.bits[idx]
}

} // verus!
