//! Sorting by growing a sorted prefix one element at a time, with O(n^2)
//! time complexity and O(1) space complexity.

use vstd::prelude::*;

use crate::sorting::sorted;
use crate::sorting::sorted_between;
use crate::sorting::swap_at;

verus! {

/// Sorts the buffer in place using insertion sort: the result is in
/// non-decreasing order and holds exactly the elements of the input.
pub fn sort(slice: &mut Vec<i64>)
    ensures
        sorted(final(slice)@),
        final(slice)@.to_multiset() == old(slice)@.to_multiset(),
        final(slice)@.len() == old(slice)@.len(),
{
    let mut curr: usize = 1;

    while curr < slice.len()
        invariant
            1 <= curr,
            slice@.len() == old(slice)@.len(),
            slice@.to_multiset() == old(slice)@.to_multiset(),
            sorted_between(slice@, 0, curr as int),
        decreases slice@.len() - curr,
    {
        let mut tmp = curr;
        while tmp > 0 && slice[tmp] < slice[tmp - 1]
            invariant
                tmp <= curr < slice@.len(),
                slice@.len() == old(slice)@.len(),
                slice@.to_multiset() == old(slice)@.to_multiset(),
                sorted_between(slice@, 0, tmp as int),
                sorted_between(slice@, tmp as int, curr as int + 1),
                forall|p: int, q: int|
                    #![trigger slice@[p], slice@[q]]
                    0 <= p < tmp && tmp < q <= curr ==> slice@[p] <= slice@[q],
            decreases tmp,
        {
            swap_at(slice, tmp, tmp - 1);
            tmp -= 1;
        }

        curr += 1;
    }
    assert(sorted_between(slice@, 0, slice@.len() as int));
}

} // verus!
