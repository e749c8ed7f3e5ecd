//! A pointer type for heap allocation with exclusive ownership: the
//! allocation and the held value are destroyed together, exactly once, when
//! the pointer is destroyed; ownership can move but never be duplicated.

use vstd::prelude::*;

verus! {

/// A pointer type for heap allocation. Its view is the held value.
pub struct Box<T> {
    inner: std::boxed::Box<T>,
}

impl<T> View for Box<T> {
    type V = T;

    closed spec fn view(&self) -> T {
        *self.inner
    }
}

impl<T> Box<T> {
    /// Places `val` on the heap and returns the sole owner of the allocation.
    pub fn new(val: T) -> (r: Self)
        ensures
            r@ == val,
    {
        Box { inner: std::boxed::Box::new(val) }
    }

    /// Borrows the held value.
    pub fn get(&self) -> (r: &T)
        ensures
            *r == self@,
    {
        &*self.inner
    }

    /// Borrows the held value mutably: whatever the caller writes through
    /// the reference is what the pointer holds afterwards.
    pub fn get_mut(&mut self) -> (r: &mut T)
        ensures
            *r == old(self)@,
            final(self)@ == *final(r),
    {
        &mut *self.inner
    }

    /// Replaces the held value, returning the previous one.
    pub fn replace(&mut self, val: T) -> (r: T)
        ensures
            final(self)@ == val,
            r == old(self)@,
    {
        let mut inner = std::boxed::Box::new(val);
        core::mem::swap(&mut self.inner, &mut inner);
        *inner
    }

    /// Gives up the pointer, handing the held value back out.
    pub fn into_inner(self) -> (r: T)
        ensures
            r == self@,
    {
        *self.inner
    }
}

} // verus!
