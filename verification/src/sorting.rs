//! Sorting of integer slices, as the harnesses that mutate a vector
//! through its slice use it.
use vstd::prelude::*;
use vstd::relations::{sorted_by, total_ordering};

verus! {

/// The order in which `sort` arranges integers: ascending.
pub open spec fn ascending() -> spec_fn(i32, i32) -> bool {
    |a: i32, b: i32| a <= b
}

/// `<[i32]>::sort` of std: the slice afterwards holds the same values, in
/// ascending order.
#[verifier::external_body]
pub(crate) fn sort_ints(s: &mut [i32])
    ensures
        final(s)@.len() == old(s)@.len(),
        final(s)@.to_multiset() == old(s)@.to_multiset(),
        sorted_by(final(s)@, ascending()),
{
    s.sort();
}

/// Ascending order on integers is a total order.
pub proof fn lemma_int_leq_total()
    ensures
        total_ordering(ascending()),
{
}

} // verus!
