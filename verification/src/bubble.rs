//! Sorting by repeated passes that swap adjacent out-of-order elements,
//! with O(n^2) time complexity and O(1) space complexity.

use vstd::prelude::*;

use crate::sorting::sorted;
use crate::sorting::sorted_between;
use crate::sorting::swap_at;

verus! {

/// Sorts the buffer in place using bubble sort: the result is in
/// non-decreasing order and holds exactly the elements of the input.
pub fn sort(slice: &mut Vec<i64>)
    ensures
        sorted(final(slice)@),
        final(slice)@.to_multiset() == old(slice)@.to_multiset(),
        final(slice)@.len() == old(slice)@.len(),
{
    let n = slice.len();
    if n == 0 {
        return;
    }
    let mut end = n;
    let mut swapped = true;

    while swapped
        invariant
            slice@.len() == n,
            end <= n,
            swapped ==> end >= 1,
            slice@.to_multiset() == old(slice)@.to_multiset(),
            sorted_between(slice@, end as int, n as int),
            forall|p: int, q: int|
                #![trigger slice@[p], slice@[q]]
                0 <= p < end <= q < n ==> slice@[p] <= slice@[q],
            !swapped ==> sorted_between(slice@, 0, end as int),
        decreases end,
    {
        swapped = false;
        let mut i: usize = 1;
        while i < end
            invariant
                1 <= i <= end <= n,
                swapped ==> end >= 2,
                slice@.len() == n,
                slice@.to_multiset() == old(slice)@.to_multiset(),
                sorted_between(slice@, end as int, n as int),
                forall|p: int, q: int|
                    #![trigger slice@[p], slice@[q]]
                    0 <= p < end <= q < n ==> slice@[p] <= slice@[q],
                forall|p: int| #![trigger slice@[p]] 0 <= p < i ==> slice@[p] <= slice@[i - 1],
                !swapped ==> sorted_between(slice@, 0, i as int),
            decreases end - i,
        {
            if slice[i] < slice[i - 1] {
                swapped = true;
                swap_at(slice, i, i - 1);
            }
            i += 1;
        }
        end -= 1;
    }
    assert(sorted_between(slice@, 0, n as int));
}

} // verus!
