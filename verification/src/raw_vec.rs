//! Capacity bookkeeping for the growable buffer: the capacity-owning raw
//! storage concept, kept separate from the logical length.

use vstd::layout::size_of;
use vstd::prelude::*;

verus! {

/// Tracks how many elements the buffer's backing region can hold before it
/// must be regrown. A zero-sized element type needs no real storage, so its
/// capacity is unbounded from the start and never changes.
pub struct RawVec<T> {
    cap: usize,
    _marker: core::marker::PhantomData<T>,
}

impl<T> RawVec<T> {
    /// The number of elements the tracked region can hold.
    pub closed spec fn cap_spec(&self) -> usize {
        self.cap
    }

    /// Creates bookkeeping for an empty region: capacity zero, or unbounded
    /// for a zero-sized element type.
    pub fn new() -> (r: Self)
        ensures
            r.cap_spec() == if size_of::<T>() == 0 {
                usize::MAX
            } else {
                0usize
            },
    {
        let cap: usize = if core::mem::size_of::<T>() == 0 {
            usize::MAX
        } else {
            0
        };
        RawVec { cap, _marker: core::marker::PhantomData }
    }

    /// The capacity of the tracked region.
    pub fn cap(&self) -> (r: usize)
        ensures
            r == self.cap_spec(),
    {
        self.cap
    }

    /// Makes room for at least one more element: a zero capacity becomes one,
    /// any other capacity doubles. Growing past the largest representable
    /// region size is a fatal error, so the caller must rule it out.
    pub fn grow(&mut self)
        requires
            2 * old(self).cap_spec() as int <= isize::MAX as int,
        ensures
            final(self).cap_spec() == if old(self).cap_spec() == 0 {
                1usize
            } else {
                (2 * old(self).cap_spec()) as usize
            },
    {
        let new_cap: usize = if self.cap == 0 {
            1
        } else {
            2 * self.cap
        };
        self.cap = new_cap;
    }
}

} // verus!
