//! Sequential consumption of the growable buffer: a consuming iterator that
//! takes ownership of the storage, and a draining iterator that empties the
//! buffer while leaving its capacity intact. Both read elements out by value
//! from the front and, symmetrically, from the back.

use vstd::prelude::*;

use crate::vec::Vec;

verus! {

/// An iterator that owns the elements taken from a buffer and hands them out
/// by value from either end. Its view is the sequence not yet yielded.
pub struct IntoIter<T> {
    data: std::vec::Vec<T>,
}

/// An iterator over elements drained out of a buffer, handing them out by
/// value from either end, while the buffer keeps its capacity. Its view is
/// the sequence not yet yielded.
pub struct Drain<T> {
    data: std::vec::Vec<T>,
}

impl<T> View for IntoIter<T> {
    type V = Seq<T>;

    closed spec fn view(&self) -> Seq<T> {
        self.data@
    }
}

impl<T> View for Drain<T> {
    type V = Seq<T>;

    closed spec fn view(&self) -> Seq<T> {
        self.data@
    }
}

impl<T> Vec<T> {
    /// Consumes the buffer, transferring ownership of its storage to an
    /// iterator over all its elements.
    pub fn into_iter(self) -> (it: IntoIter<T>)
        ensures
            it@ == self@,
    {
        IntoIter { data: self.unwrap_data() }
    }

    /// Empties the buffer into an iterator over all its elements, leaving the
    /// buffer's already-grown capacity intact and reusable.
    pub fn drain(&mut self) -> (it: Drain<T>)
        requires
            old(self).wf(),
        ensures
            final(self).wf(),
            it@ == old(self)@,
            final(self)@ == Seq::<T>::empty(),
            final(self).cap_spec() == old(self).cap_spec(),
    {
        Drain { data: self.take_data() }
    }
}

impl<T> IntoIter<T> {
    /// The exact number of elements not yet yielded.
    pub fn len(&self) -> (r: usize)
        ensures
            r == self@.len(),
    {
        self.data.len()
    }

    /// Reads out the next element from the front, until none remain.
    pub fn next(&mut self) -> (r: Option<T>)
        ensures
            old(self)@.len() == 0 ==> r is None && final(self)@ == old(self)@,
            old(self)@.len() > 0 ==> r == Some(old(self)@[0]) && final(self)@ == old(
                self,
            )@.drop_first(),
    {
        if self.data.len() == 0 {
            None
        } else {
            let elem = self.data.remove(0);
            proof {
                assert(old(self)@.remove(0) =~= old(self)@.drop_first());
            }
            Some(elem)
        }
    }

    /// Reads out the next element from the back, until none remain.
    pub fn next_back(&mut self) -> (r: Option<T>)
        ensures
            old(self)@.len() == 0 ==> r is None && final(self)@ == old(self)@,
            old(self)@.len() > 0 ==> r == Some(old(self)@.last()) && final(self)@ == old(
                self,
            )@.drop_last(),
    {
        self.data.pop()
    }
}

impl<T> Drain<T> {
    /// The exact number of elements not yet yielded.
    pub fn len(&self) -> (r: usize)
        ensures
            r == self@.len(),
    {
        self.data.len()
    }

    /// Reads out the next element from the front, until none remain.
    pub fn next(&mut self) -> (r: Option<T>)
        ensures
            old(self)@.len() == 0 ==> r is None && final(self)@ == old(self)@,
            old(self)@.len() > 0 ==> r == Some(old(self)@[0]) && final(self)@ == old(
                self,
            )@.drop_first(),
    {
        if self.data.len() == 0 {
            None
        } else {
            let elem = self.data.remove(0);
            proof {
                assert(old(self)@.remove(0) =~= old(self)@.drop_first());
            }
            Some(elem)
        }
    }

    /// Reads out the next element from the back, until none remain.
    pub fn next_back(&mut self) -> (r: Option<T>)
        ensures
            old(self)@.len() == 0 ==> r is None && final(self)@ == old(self)@,
            old(self)@.len() > 0 ==> r == Some(old(self)@.last()) && final(self)@ == old(
                self,
            )@.drop_last(),
    {
        self.data.pop()
    }
}

} // verus!
