//! Bit sets of the `bit-vec` crate, seen by contracts as a sequence of booleans.
use bit_vec::BitVec;
use vstd::prelude::*;

verus! {

/// The `bit_vec::BitVec` type, carried through verified code as an opaque value.
#[verifier::external_type_specification]
#[verifier::external_body]
#[verifier::reject_recursive_types(B)]
pub struct ExBitVec<B>(BitVec<B>);

/// The bits a `BitVec` holds, in index order; its length is the vector's length.
pub uninterp spec fn bits_of(b: BitVec) -> Seq<bool>;

/// A sequence of `n` copies of `bit`.
pub open spec fn uniform_bits(n: nat, bit: bool) -> Seq<bool> {
    Seq::new(n, |i: int| bit)
}

/// Whether no bit of `s` is set.
pub open spec fn no_bit_set(s: Seq<bool>) -> bool {
    forall|i: int| 0 <= i < s.len() ==> !s[i]
}

/// The bitwise conjunction of two sequences of equal length.
pub open spec fn bits_and(a: Seq<bool>, b: Seq<bool>) -> Seq<bool> {
    Seq::new(a.len(), |i: int| a[i] && b[i])
}

/// Whether intersecting `a` with `b` clears some bit of `a`.
pub open spec fn loses_a_bit(a: Seq<bool>, b: Seq<bool>) -> bool {
    exists|i: int| 0 <= i < a.len() && a[i] && !b[i]
}

/// `BitVec::from_elem`: a vector of `nbits` bits, each equal to `bit`.
#[verifier::external_body]
pub(crate) fn bv_from_elem(nbits: usize, bit: bool) -> (r: BitVec)
    ensures
        bits_of(r) == uniform_bits(nbits as nat, bit),
{
    BitVec::from_elem(nbits, bit)
}

/// `BitVec::len`: the number of bits.
#[verifier::external_body]
pub(crate) fn bv_len(b: &BitVec) -> (r: usize)
    ensures
        r == bits_of(*b).len(),
{
    b.len()
}

/// `BitVec::get`: the bit at `i`, or `None` when `i` is out of bounds.
#[verifier::external_body]
pub(crate) fn bv_get(b: &BitVec, i: usize) -> (r: Option<bool>)
    ensures
        i < bits_of(*b).len() ==> r == Some(bits_of(*b)[i as int]),
        i >= bits_of(*b).len() ==> r.is_none(),
{
    b.get(i)
}

/// `BitVec::set`: overwrites the bit at `i` (the crate panics when `i` is out of bounds).
#[verifier::external_body]
pub(crate) fn bv_set(b: &mut BitVec, i: usize, x: bool)
    requires
        i < bits_of(*old(b)).len(),
    ensures
        bits_of(*final(b)) == bits_of(*old(b)).update(i as int, x),
{
    b.set(i, x)
}

/// `BitVec::none`: whether no bit is set.
#[verifier::external_body]
pub(crate) fn bv_none(b: &BitVec) -> (r: bool)
    ensures
        r == no_bit_set(bits_of(*b)),
{
    b.none()
}

/// `BitVec::any`: whether some bit is set.
#[verifier::external_body]
pub(crate) fn bv_any(b: &BitVec) -> (r: bool)
    ensures
        r == !no_bit_set(bits_of(*b)),
{
    b.any()
}

/// `BitVec::and`: intersects `a` with `other` in place (the crate panics on differing
/// lengths) and reports whether some bit of `a` changed.
#[verifier::external_body]
pub(crate) fn bv_and(a: &mut BitVec, other: &BitVec) -> (changed: bool)
    requires
        bits_of(*old(a)).len() == bits_of(*other).len(),
    ensures
        bits_of(*final(a)) == bits_and(bits_of(*old(a)), bits_of(*other)),
        changed == loses_a_bit(bits_of(*old(a)), bits_of(*other)),
{
    a.and(other)
}

/// `BitVec::clone`: a vector holding the same bits.
#[verifier::external_body]
pub(crate) fn bv_clone(b: &BitVec) -> (r: BitVec)
    ensures
        bits_of(r) == bits_of(*b),
{
    b.clone()
}

} // verus!
