//! The delimiter set handed to the tokenizer: a persistent hash set of byte
//! values from the `im` crate, known to the verifier only by its stated
//! contents.
use vstd::prelude::*;

verus! {

#[verifier::external_type_specification]
#[verifier::external_body]
#[verifier::reject_recursive_types(A)]
#[verifier::reject_recursive_types(S)]
pub struct ExImHashSet<A, S>(im::HashSet<A, S>);

/// The mathematical contents of a byte set.
pub uninterp spec fn byte_set_elems(s: im::HashSet<u8>) -> Set<u8>;

/// Relies on im::HashSet::new: the fresh set is empty.
#[verifier::external_body]
pub(crate) fn byte_set_new() -> (r: im::HashSet<u8>)
    ensures
        byte_set_elems(r) == Set::<u8>::empty(),
{
    im::HashSet::new()
}

/// Relies on im::HashSet::insert: afterwards the set holds the given value
/// and everything it held before.
#[verifier::external_body]
pub(crate) fn byte_set_insert(s: &mut im::HashSet<u8>, value: u8)
    ensures
        byte_set_elems(*final(s)) == byte_set_elems(*old(s)).insert(value),
{
    s.insert(value);
}

/// Relies on im::HashSet::contains: membership in the set's contents.
#[verifier::external_body]
pub(crate) fn byte_set_contains(s: &im::HashSet<u8>, value: u8) -> (r: bool)
    ensures
        r == byte_set_elems(*s).contains(value),
{
    s.contains(&value)
}

} // verus!
