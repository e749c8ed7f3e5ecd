//! A contiguous growable array type: a capacity/length-managed region with
//! amortized-O(1) append, positional insert and remove, and a doubling growth
//! policy. The capacity-owning storage concept lives in [`crate::raw_vec`].

use vstd::layout::size_of;
use vstd::prelude::*;

use crate::raw_vec::RawVec;

verus! {

/// Capacity after making room for one more element when `len` elements are
/// held: unchanged while there is spare room, otherwise doubled (or one,
/// doubling from empty).
pub open spec fn next_cap(cap: usize, len: nat) -> usize {
    if len == cap {
        if cap == 0 {
            1usize
        } else {
            (2 * cap) as usize
        }
    } else {
        cap
    }
}

/// A contiguous growable array type. Its view is the sequence of elements it
/// holds, in order.
pub struct Vec<T> {
    buffer: RawVec<T>,
    data: std::vec::Vec<T>,
}

impl<T> View for Vec<T> {
    type V = Seq<T>;

    closed spec fn view(&self) -> Seq<T> {
        self.data@
    }
}

impl<T> Vec<T> {
    /// The capacity recorded by the buffer's bookkeeping.
    pub closed spec fn cap_spec(&self) -> usize {
        self.buffer.cap_spec()
    }

    /// The buffer's bookkeeping is coherent: the length never exceeds the
    /// capacity, the capacity never exceeds the largest representable region
    /// size, and a zero-sized element type has unbounded capacity.
    pub closed spec fn wf(&self) -> bool {
        &&& self@.len() <= self.cap_spec()
        &&& if size_of::<T>() == 0 {
            self.cap_spec() == usize::MAX
        } else {
            self.cap_spec() as int <= isize::MAX as int
        }
    }

    /// What well-formedness guarantees, stated for callers: the length never
    /// exceeds the capacity; a zero-sized element type keeps the
    /// unbounded-capacity sentinel; any other capacity stays within the
    /// largest representable region size.
    pub proof fn lemma_wf_bounds(&self)
        requires
            self.wf(),
        ensures
            self@.len() <= self.cap_spec(),
            size_of::<T>() == 0 ==> self.cap_spec() == usize::MAX,
            size_of::<T>() != 0 ==> self.cap_spec() as int <= isize::MAX as int,
    {
    }

    /// A buffer of zero-sized elements never grows: making room for one more
    /// element leaves the capacity at the sentinel, and only the length
    /// moves.
    pub proof fn lemma_zero_sized_capacity_fixed(&self)
        requires
            self.wf(),
            size_of::<T>() == 0,
            self@.len() < usize::MAX,
        ensures
            self.cap_spec() == usize::MAX,
            next_cap(self.cap_spec(), self@.len()) == self.cap_spec(),
    {
    }

    /// Constructs a new empty buffer: zero capacity, zero length, no backing
    /// region until the first growth.
    pub fn new() -> (r: Self)
        ensures
            r@ == Seq::<T>::empty(),
            r.wf(),
            r.cap_spec() == if size_of::<T>() == 0 {
                usize::MAX
            } else {
                0usize
            },
    {
        Vec { buffer: RawVec::new(), data: std::vec::Vec::new() }
    }

    /// The capacity of the buffer.
    pub fn capacity(&self) -> (r: usize)
        ensures
            r == self.cap_spec(),
    {
        self.buffer.cap()
    }

    /// The number of elements held.
    pub fn len(&self) -> (r: usize)
        ensures
            r == self@.len(),
    {
        self.data.len()
    }

    /// Borrows the element at position `idx`.
    pub fn get(&self, idx: usize) -> (r: &T)
        requires
            idx < self@.len(),
        ensures
            *r == self@[idx as int],
    {
        &self.data[idx]
    }

    /// Borrows the element at position `idx` mutably: whatever the caller
    /// writes through the reference is what the buffer holds there
    /// afterwards; length and capacity stay unchanged.
    pub fn get_mut(&mut self, idx: usize) -> (r: &mut T)
        requires
            old(self).wf(),
            idx < old(self)@.len(),
        ensures
            final(self).wf(),
            *r == old(self)@[idx as int],
            final(self)@ == old(self)@.update(idx as int, *final(r)),
            final(self).cap_spec() == old(self).cap_spec(),
    {
        &mut self.data[idx]
    }

    /// Appends the element at the end of the buffer, growing it by the
    /// doubling policy when full.
    pub fn push(&mut self, elem: T)
        requires
            old(self).wf(),
            old(self)@.len() == old(self).cap_spec() ==> 2 * old(self).cap_spec() as int
                <= isize::MAX as int,
        ensures
            final(self).wf(),
            final(self)@ == old(self)@.push(elem),
            final(self).cap_spec() == next_cap(old(self).cap_spec(), old(self)@.len()),
    {
        if self.data.len() == self.buffer.cap() {
            self.buffer.grow();
        }
        self.data.push(elem);
    }

    /// Inserts the element at position `idx`, shifting everything at and
    /// after it one slot to the right, growing the buffer by the doubling
    /// policy when full. An index past the end is a caller error.
    pub fn insert(&mut self, idx: usize, elem: T)
        requires
            old(self).wf(),
            idx <= old(self)@.len(),
            old(self)@.len() == old(self).cap_spec() ==> 2 * old(self).cap_spec() as int
                <= isize::MAX as int,
        ensures
            final(self).wf(),
            final(self)@ == old(self)@.insert(idx as int, elem),
            final(self).cap_spec() == next_cap(old(self).cap_spec(), old(self)@.len()),
    {
        if self.data.len() == self.buffer.cap() {
            self.buffer.grow();
        }
        self.data.insert(idx, elem);
    }

    /// Removes and returns the element at position `idx`, shifting everything
    /// after it one slot to the left. An index at or past the end is a caller
    /// error.
    pub fn remove(&mut self, idx: usize) -> (r: T)
        requires
            old(self).wf(),
            idx < old(self)@.len(),
        ensures
            final(self).wf(),
            r == old(self)@[idx as int],
            final(self)@ == old(self)@.remove(idx as int),
            final(self).cap_spec() == old(self).cap_spec(),
    {
        self.data.remove(idx)
    }

    /// Hands the element storage out of the buffer, consuming it.
    pub(crate) fn unwrap_data(self) -> (d: std::vec::Vec<T>)
        ensures
            d@ == self@,
    {
        self.data
    }

    /// Takes the element storage out of the buffer, leaving the buffer empty
    /// with its capacity bookkeeping intact.
    pub(crate) fn take_data(&mut self) -> (d: std::vec::Vec<T>)
        ensures
            d@ == old(self)@,
            final(self)@ == Seq::<T>::empty(),
            final(self).cap_spec() == old(self).cap_spec(),
            old(self).wf() ==> final(self).wf(),
    {
        let mut data = std::vec::Vec::new();
        core::mem::swap(&mut self.data, &mut data);
        data
    }

    /// Removes and returns the last element, or yields nothing when the
    /// buffer is empty.
    pub fn pop(&mut self) -> (r: Option<T>)
        requires
            old(self).wf(),
        ensures
            final(self).wf(),
            final(self).cap_spec() == old(self).cap_spec(),
            old(self)@.len() == 0 ==> r is None && final(self)@ == old(self)@,
            old(self)@.len() > 0 ==> r == Some(old(self)@.last()) && final(self)@ == old(
                self,
            )@.drop_last(),
    {
        self.data.pop()
    }
}

} // verus!
