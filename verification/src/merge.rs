//! Sorting by recursive splitting and in-place merging of sorted runs, with
//! O(n log(n)) time complexity and O(h) space complexity for the call stack:
//! the merge itself allocates nothing and works by rotation.

use vstd::pervasive::VecAdditionalExecFns;
use vstd::prelude::*;

use crate::sorting::lemma_multiset_frame;
use crate::sorting::sorted;
use crate::sorting::sorted_between;

verus! {

/// Rotates the segment [b, e) right by one: the last element of the segment
/// moves to position `b` and the rest shift one slot toward the end.
fn rotate_right_one(slice: &mut Vec<i64>, b: usize, e: usize)
    requires
        b < e <= old(slice)@.len(),
    ensures
        final(slice)@.len() == old(slice)@.len(),
        final(slice)@[b as int] == old(slice)@[e - 1],
        forall|k: int| b < k < e ==> final(slice)@[k] == old(slice)@[k - 1],
        forall|k: int|
            (0 <= k < b || e <= k < old(slice)@.len()) ==> final(slice)@[k] == old(slice)@[k],
        final(slice)@.subrange(b as int, e as int).to_multiset() == old(slice)@.subrange(
            b as int,
            e as int,
        ).to_multiset(),
{
    let saved = slice[e - 1];
    let mut k = e - 1;
    while k > b
        invariant
            b <= k <= e - 1,
            e <= slice@.len(),
            slice@.len() == old(slice)@.len(),
            saved == old(slice)@[e - 1],
            forall|j: int| 0 <= j <= k ==> slice@[j] == old(slice)@[j],
            forall|j: int| k < j < e ==> slice@[j] == old(slice)@[j - 1],
            forall|j: int| e <= j < slice@.len() ==> slice@[j] == old(slice)@[j],
        decreases k,
    {
        let x = slice[k - 1];
        slice.set(k, x);
        k -= 1;
    }
    slice.set(b, saved);

    proof {
        broadcast use vstd::seq_lib::lemma_multiset_commutative;

        let pre = old(slice)@;
        let post = slice@;
        let front = pre.subrange(b as int, e - 1);
        let last = seq![pre[e - 1]];
        assert(post.subrange(b as int, e as int) =~= last + front);
        assert(pre.subrange(b as int, e as int) =~= front + last);
        assert((last + front).to_multiset() =~= (front + last).to_multiset());
    }
}

/// Merges the two adjacent sorted runs [b, mid) and [mid, e) into one sorted
/// run, in place, touching nothing outside [b, e) and keeping exactly the
/// elements of the segment.
pub fn internal_merge(mid: usize, b: usize, e: usize, slice: &mut Vec<i64>)
    requires
        b <= mid <= e <= old(slice)@.len(),
        sorted_between(old(slice)@, b as int, mid as int),
        sorted_between(old(slice)@, mid as int, e as int),
    ensures
        final(slice)@.len() == old(slice)@.len(),
        sorted_between(final(slice)@, b as int, e as int),
        final(slice)@.subrange(b as int, e as int).to_multiset() == old(slice)@.subrange(
            b as int,
            e as int,
        ).to_multiset(),
        forall|k: int|
            (0 <= k < b || e <= k < old(slice)@.len()) ==> final(slice)@[k] == old(slice)@[k],
{
    let mut left_begin = b;
    let mut left_end = mid;
    let mut right_begin = mid;
    let right_end = e;

    while left_begin != left_end && right_begin != right_end
        invariant
            b <= left_begin <= left_end <= right_begin <= right_end <= slice@.len(),
            left_end == right_begin,
            right_end == e,
            slice@.len() == old(slice)@.len(),
            sorted_between(slice@, b as int, left_begin as int),
            sorted_between(slice@, left_begin as int, left_end as int),
            sorted_between(slice@, right_begin as int, e as int),
            forall|p: int, q: int|
                #![trigger slice@[p], slice@[q]]
                b <= p < left_begin && left_begin <= q < left_end ==> slice@[p] <= slice@[q],
            forall|p: int, q: int|
                #![trigger slice@[p], slice@[q]]
                b <= p < left_begin && right_begin <= q < e ==> slice@[p] <= slice@[q],
            slice@.subrange(b as int, e as int).to_multiset() == old(slice)@.subrange(
                b as int,
                e as int,
            ).to_multiset(),
            forall|k: int|
                (0 <= k < b || e <= k < old(slice)@.len()) ==> slice@[k] == old(slice)@[k],
        decreases (left_end - left_begin) + (right_end - right_begin),
    {
        if slice[left_begin] <= slice[right_begin] {
            left_begin += 1;
        } else {
            let ghost prev = slice@;
            rotate_right_one(slice, left_begin, right_begin + 1);
            proof {
                lemma_multiset_frame(
                    prev,
                    slice@,
                    b as int,
                    left_begin as int,
                    right_begin + 1,
                    e as int,
                );
            }
            left_begin += 1;
            left_end += 1;
            right_begin += 1;
        }
    }
}

/// Sorts the segment [b, e) in place using recursive merge sort, touching
/// nothing outside it and keeping exactly the elements of the segment.
pub fn internal_mergesort(b: usize, e: usize, slice: &mut Vec<i64>)
    requires
        b <= e <= old(slice)@.len(),
    ensures
        final(slice)@.len() == old(slice)@.len(),
        sorted_between(final(slice)@, b as int, e as int),
        final(slice)@.subrange(b as int, e as int).to_multiset() == old(slice)@.subrange(
            b as int,
            e as int,
        ).to_multiset(),
        forall|k: int|
            (0 <= k < b || e <= k < old(slice)@.len()) ==> final(slice)@[k] == old(slice)@[k],
    decreases e - b,
{
    if e - b > 1 {
        let mid = b + (e - b) / 2;
        let ghost s0 = slice@;
        internal_mergesort(b, mid, slice);
        let ghost s1 = slice@;
        internal_mergesort(mid, e, slice);
        let ghost s2 = slice@;
        internal_merge(mid, b, e, slice);
        proof {
            lemma_multiset_frame(s0, s1, b as int, b as int, mid as int, e as int);
            lemma_multiset_frame(s1, s2, b as int, mid as int, e as int, e as int);
        }
    }
}

/// Sorts the buffer in place using recursive merge sort: the result is in
/// non-decreasing order and holds exactly the elements of the input.
pub fn sort(slice: &mut Vec<i64>)
    ensures
        sorted(final(slice)@),
        final(slice)@.to_multiset() == old(slice)@.to_multiset(),
        final(slice)@.len() == old(slice)@.len(),
{
    let len = slice.len();
    internal_mergesort(0, len, slice);
    proof {
        assert(slice@.subrange(0, len as int) =~= slice@);
        assert(old(slice)@.subrange(0, len as int) =~= old(slice)@);
    }
}

} // verus!
