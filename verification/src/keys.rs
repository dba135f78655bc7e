//! Sort keys: the CPU usage of a row together with the row's position.

use core::cmp::Ordering;
use vstd::prelude::*;

verus! {

/// Whether key `a` stands at or before key `b` in display order: the
/// higher CPU usage first, and of two equal usages the lower position.
pub open spec fn key_leq(a: (u32, usize), b: (u32, usize)) -> bool {
    a.0 > b.0 || (a.0 == b.0 && a.1 <= b.1)
}

/// Compares two keys in display order.
pub fn compare_keys(a: &(u32, usize), b: &(u32, usize)) -> (order: Ordering)
    ensures
        (order == Ordering::Less) == (key_leq(*a, *b) && *a != *b),
        (order == Ordering::Equal) == (*a == *b),
        (order == Ordering::Greater) == !key_leq(*a, *b),
{
    if a.0 > b.0 {
        Ordering::Less
    } else if a.0 < b.0 {
        Ordering::Greater
    } else if a.1 < b.1 {
        Ordering::Less
    } else if a.1 > b.1 {
        Ordering::Greater
    } else {
        Ordering::Equal
    }
}

/// Calls `pdqsort::sort_by` on the keys, with `compare_keys` as the
/// comparison. Trusted: the call rearranges the keys in place, so that the
/// same keys are there afterwards, each as often as before, and no key
/// stands before one that `compare_keys` puts ahead of it. The sort is
/// unstable, so nothing is claimed about the order of equal keys.
#[verifier::external_body]
pub(crate) fn sort_keys(keys: &mut Vec<(u32, usize)>)
    ensures
        final(keys)@.to_multiset() == old(keys)@.to_multiset(),
        forall|i: int, j: int|
            0 <= i < j < final(keys)@.len() ==> key_leq(
                #[trigger] final(keys)@[i],
                #[trigger] final(keys)@[j],
            ),
{
    pdqsort::sort_by(keys.as_mut_slice(), |a, b| compare_keys(a, b));
}

} // verus!
