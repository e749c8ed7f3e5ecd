//! Shared vocabulary for the sort modules: what it means for a sequence to be
//! ordered, and the element-swap primitive all in-place sorts are built on.

use vstd::pervasive::VecAdditionalExecFns;
use vstd::prelude::*;

verus! {

/// Holds when `s` is in non-decreasing order.
pub open spec fn sorted(s: Seq<i64>) -> bool {
    forall|i: int, j: int| #![trigger s[i], s[j]] 0 <= i <= j < s.len() ==> s[i] <= s[j]
}

/// Holds when `s` is in non-decreasing order within the index range [b, e).
pub open spec fn sorted_between(s: Seq<i64>, b: int, e: int) -> bool {
    forall|i: int, j: int| #![trigger s[i], s[j]] b <= i <= j < e ==> s[i] <= s[j]
}

/// Swapping two positions of a sequence leaves its multiset of elements
/// unchanged.
pub proof fn lemma_swap_preserves_multiset(s: Seq<i64>, i: int, j: int)
    requires
        0 <= i < s.len(),
        0 <= j < s.len(),
    ensures
        s.update(i, s[j]).update(j, s[i]).to_multiset() == s.to_multiset(),
{
    broadcast use vstd::seq_lib::group_to_multiset_ensures;
    broadcast use vstd::seq_lib::to_multiset_update;

    if i == j {
        assert(s.update(i, s[j]).update(j, s[i]) =~= s);
    } else {
        let s1 = s.update(i, s[j]);
        assert(s1[j] == s[j]);
        assert(s.contains(s[i]));
        assert(s.contains(s[j]));
        assert(s1.to_multiset() == s.to_multiset().insert(s[j]).remove(s[i]));
        assert(s1.update(j, s[i]).to_multiset() == s1.to_multiset().insert(s[i]).remove(s1[j]));
        assert(s1.update(j, s[i]).to_multiset() =~= s.to_multiset());
    }
}

/// If two equal-length sequences agree outside [x, y) and their [x, y)
/// segments hold the same multiset, then their [b, e) segments hold the same
/// multiset, for any [b, e) enclosing [x, y).
pub proof fn lemma_multiset_frame(s1: Seq<i64>, s2: Seq<i64>, b: int, x: int, y: int, e: int)
    requires
        s1.len() == s2.len(),
        0 <= b <= x <= y <= e <= s1.len(),
        s1.subrange(x, y).to_multiset() == s2.subrange(x, y).to_multiset(),
        forall|k: int| b <= k < x ==> s1[k] == s2[k],
        forall|k: int| y <= k < e ==> s1[k] == s2[k],
    ensures
        s1.subrange(b, e).to_multiset() == s2.subrange(b, e).to_multiset(),
{
    broadcast use vstd::seq_lib::lemma_multiset_commutative;

    assert(s1.subrange(b, e) =~= s1.subrange(b, x) + s1.subrange(x, y) + s1.subrange(y, e));
    assert(s2.subrange(b, e) =~= s2.subrange(b, x) + s2.subrange(x, y) + s2.subrange(y, e));
    assert(s1.subrange(b, x) =~= s2.subrange(b, x));
    assert(s1.subrange(y, e) =~= s2.subrange(y, e));
    assert((s1.subrange(b, x) + s1.subrange(x, y)).to_multiset() == (s2.subrange(b, x)
        + s2.subrange(x, y)).to_multiset());
    assert(((s1.subrange(b, x) + s1.subrange(x, y)) + s1.subrange(y, e)).to_multiset()
        == ((s2.subrange(b, x) + s2.subrange(x, y)) + s2.subrange(y, e)).to_multiset());
}

/// If two sequences hold the same multiset and every element of the first is
/// at most `c`, then so is every element of the second.
pub proof fn lemma_multiset_le(s1: Seq<i64>, s2: Seq<i64>, c: i64)
    requires
        s1.to_multiset() == s2.to_multiset(),
        forall|k: int| 0 <= k < s1.len() ==> s1[k] <= c,
    ensures
        forall|k: int| 0 <= k < s2.len() ==> s2[k] <= c,
{
    broadcast use vstd::seq_lib::group_to_multiset_ensures;

    assert forall|k: int| 0 <= k < s2.len() implies s2[k] <= c by {
        assert(s2.contains(s2[k]));
        assert(s1.to_multiset().count(s2[k]) > 0);
        assert(s1.contains(s2[k]));
        let i = choose|i: int| 0 <= i < s1.len() && s1[i] == s2[k];
        assert(s1[i] <= c);
    }
}

/// If two sequences hold the same multiset and every element of the first is
/// greater than `c`, then so is every element of the second.
pub proof fn lemma_multiset_gt(s1: Seq<i64>, s2: Seq<i64>, c: i64)
    requires
        s1.to_multiset() == s2.to_multiset(),
        forall|k: int| 0 <= k < s1.len() ==> s1[k] > c,
    ensures
        forall|k: int| 0 <= k < s2.len() ==> s2[k] > c,
{
    broadcast use vstd::seq_lib::group_to_multiset_ensures;

    assert forall|k: int| 0 <= k < s2.len() implies s2[k] > c by {
        assert(s2.contains(s2[k]));
        assert(s1.to_multiset().count(s2[k]) > 0);
        assert(s1.contains(s2[k]));
        let i = choose|i: int| 0 <= i < s1.len() && s1[i] == s2[k];
        assert(s1[i] > c);
    }
}

/// Swapping two positions inside [x, y) leaves the multiset of the [x, y)
/// segment unchanged.
pub proof fn lemma_swap_subrange_multiset(s: Seq<i64>, x: int, y: int, i: int, j: int)
    requires
        0 <= x <= i < y <= s.len(),
        x <= j < y,
    ensures
        s.update(i, s[j]).update(j, s[i]).subrange(x, y).to_multiset() == s.subrange(
            x,
            y,
        ).to_multiset(),
{
    let t = s.update(i, s[j]).update(j, s[i]);
    let sub = s.subrange(x, y);
    assert(t.subrange(x, y) =~= sub.update(i - x, sub[j - x]).update(j - x, sub[i - x]));
    lemma_swap_preserves_multiset(sub, i - x, j - x);
}

/// Swaps the elements at positions `i` and `j`, leaving the rest in place.
pub fn swap_at(v: &mut Vec<i64>, i: usize, j: usize)
    requires
        i < old(v)@.len(),
        j < old(v)@.len(),
    ensures
        final(v)@ == old(v)@.update(i as int, old(v)@[j as int]).update(
            j as int,
            old(v)@[i as int],
        ),
        final(v)@.to_multiset() == old(v)@.to_multiset(),
        final(v)@.len() == old(v)@.len(),
{
    let x = v[i];
    let y = v[j];
    v.set(i, y);
    v.set(j, x);
    proof {
        lemma_swap_preserves_multiset(old(v)@, i as int, j as int);
    }
}

} // verus!
