//! Sorting by recursive partitioning around a pivot, with O(n log(n)) time
//! complexity on average, O(n^2) at worst, and O(h) space complexity for the
//! call stack: the partition is done in place with O(1) extra memory.

use vstd::prelude::*;

use crate::sorting::lemma_multiset_frame;
use crate::sorting::lemma_multiset_gt;
use crate::sorting::lemma_multiset_le;
use crate::sorting::lemma_swap_subrange_multiset;
use crate::sorting::sorted;
use crate::sorting::sorted_between;
use crate::sorting::swap_at;

verus! {

/// Partitions the segment [b, e) around the pivot initially at index `p`:
/// afterwards the pivot sits at the returned index, everything to its left
/// within the segment is at most the pivot, and everything to its right
/// within the segment is greater. Touches nothing outside [b, e) and keeps
/// exactly the elements of the segment.
pub fn internal_partition(p: usize, b: usize, e: usize, slice: &mut Vec<i64>) -> (r: usize)
    requires
        b <= p < e <= old(slice)@.len(),
    ensures
        b <= r < e,
        final(slice)@.len() == old(slice)@.len(),
        final(slice)@[r as int] == old(slice)@[p as int],
        forall|k: int| b <= k < r ==> final(slice)@[k] <= final(slice)@[r as int],
        forall|k: int| r < k < e ==> final(slice)@[k] > final(slice)@[r as int],
        final(slice)@.subrange(b as int, e as int).to_multiset() == old(slice)@.subrange(
            b as int,
            e as int,
        ).to_multiset(),
        forall|k: int|
            (0 <= k < b || e <= k < old(slice)@.len()) ==> final(slice)@[k] == old(slice)@[k],
{
    let ghost orig_b = b as int;
    let ghost orig_e = e as int;

    swap_at(slice, p, b);
    proof {
        lemma_swap_subrange_multiset(old(slice)@, orig_b, orig_e, p as int, b as int);
    }
    let ghost base = slice@;

    let p = b;
    let mut b = b + 1;
    let mut e = e - 1;

    while b <= e
        invariant
            orig_b == p,
            p + 1 <= b <= e + 1,
            orig_b <= e < orig_e <= slice@.len(),
            orig_e <= usize::MAX,
            slice@.len() == old(slice)@.len(),
            slice@[p as int] == base[p as int],
            forall|k: int| p < k < b ==> slice@[k] <= slice@[p as int],
            forall|k: int| e < k < orig_e ==> slice@[k] > slice@[p as int],
            slice@.subrange(orig_b, orig_e).to_multiset() == old(slice)@.subrange(
                orig_b,
                orig_e,
            ).to_multiset(),
            forall|k: int|
                (0 <= k < orig_b || orig_e <= k < old(slice)@.len()) ==> slice@[k] == old(
                    slice,
                )@[k],
        decreases e + 1 - b,
    {
        if slice[b] <= slice[p] {
            b += 1;
        } else {
            let ghost prev = slice@;
            swap_at(slice, e, b);
            proof {
                lemma_swap_subrange_multiset(prev, orig_b, orig_e, e as int, b as int);
            }
            e -= 1;
        }
    }

    let partition_index = b;

    let ghost prev = slice@;
    swap_at(slice, p, partition_index - 1);
    proof {
        lemma_swap_subrange_multiset(prev, orig_b, orig_e, p as int, partition_index - 1);
    }

    partition_index - 1
}

/// Sorts the segment [b, e) in place using recursive quick sort, touching
/// nothing outside it and keeping exactly the elements of the segment.
pub fn internal_quicksort(b: usize, e: usize, slice: &mut Vec<i64>)
    requires
        b <= e <= old(slice)@.len(),
    ensures
        final(slice)@.len() == old(slice)@.len(),
        sorted_between(final(slice)@, b as int, e as int),
        final(slice)@.subrange(b as int, e as int).to_multiset() == old(slice)@.subrange(
            b as int,
            e as int,
        ).to_multiset(),
        forall|k: int|
            (0 <= k < b || e <= k < old(slice)@.len()) ==> final(slice)@[k] == old(slice)@[k],
    decreases e - b,
{
    if e - b > 1 {
        let p = b + (e - b) / 2;
        let ghost s0 = slice@;
        let partition_index = internal_partition(p, b, e, slice);
        let ghost s1 = slice@;
        let ghost pi = partition_index as int;
        let ghost pivot = s1[pi];
        internal_quicksort(b, partition_index, slice);
        let ghost s2 = slice@;
        internal_quicksort(partition_index + 1, e, slice);
        let ghost s3 = slice@;

        proof {
            lemma_multiset_frame(s1, s2, b as int, b as int, pi, e as int);
            lemma_multiset_frame(s2, s3, b as int, pi + 1, e as int, e as int);

            assert(s3[pi] == pivot);

            assert forall|k: int| 0 <= k < s1.subrange(b as int, pi).len() implies s1.subrange(
                b as int,
                pi,
            )[k] <= pivot by {
                assert(s1.subrange(b as int, pi)[k] == s1[b + k]);
            }
            lemma_multiset_le(s1.subrange(b as int, pi), s2.subrange(b as int, pi), pivot);
            assert forall|k: int| b <= k < pi implies s3[k] <= pivot by {
                assert(s2.subrange(b as int, pi)[k - b] == s2[k]);
                assert(s3[k] == s2[k]);
            }

            assert forall|k: int|
                0 <= k < s2.subrange(pi + 1, e as int).len() implies #[trigger] s2.subrange(
                pi + 1,
                e as int,
            )[k] > pivot by {
                assert(s2.subrange(pi + 1, e as int)[k] == s2[pi + 1 + k]);
                assert(s2[pi + 1 + k] == s1[pi + 1 + k]);
            }
            lemma_multiset_gt(s2.subrange(pi + 1, e as int), s3.subrange(pi + 1, e as int), pivot);
            assert forall|k: int| pi < k < e implies s3[k] > pivot by {
                assert(s3.subrange(pi + 1, e as int)[k - pi - 1] == s3[k]);
            }

            assert forall|i: int, j: int|
                #![trigger s3[i], s3[j]]
                b <= i <= j < e implies s3[i] <= s3[j] by {
                if j < pi {
                    assert(sorted_between(s3, b as int, pi));
                } else if i > pi {
                    assert(sorted_between(s3, pi + 1, e as int));
                } else if i < pi && j == pi {
                    assert(s3[i] <= pivot);
                } else if i == pi && j > pi {
                    assert(s3[j] > pivot);
                } else if i < pi && j > pi {
                    assert(s3[i] <= pivot);
                    assert(s3[j] > pivot);
                }
            }
        }
    }
}

/// Sorts the buffer in place using recursive quick sort: the result is in
/// non-decreasing order and holds exactly the elements of the input.
pub fn sort(slice: &mut Vec<i64>)
    ensures
        sorted(final(slice)@),
        final(slice)@.to_multiset() == old(slice)@.to_multiset(),
        final(slice)@.len() == old(slice)@.len(),
{
    let len = slice.len();
    internal_quicksort(0, len, slice);
    proof {
        assert(slice@.subrange(0, len as int) =~= slice@);
        assert(old(slice)@.subrange(0, len as int) =~= old(slice)@);
    }
}

} // verus!
