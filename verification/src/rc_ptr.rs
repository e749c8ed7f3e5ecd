//! Single-threaded reference-counting pointers.
//!
//! `Rc<T>` provides shared ownership of a value allocated on the heap:
//! cloning produces a new pointer to the same allocation and raises the
//! shared count, destroying a pointer lowers it, and the allocation is freed
//! exactly once, when the count reaches zero. The count is not atomic, so the
//! type must stay within one thread of control.
//!
//! `Rc` disallows mutation: it hands out only read-only access to the shared
//! value.

use vstd::prelude::*;

verus! {

/// A single-threaded reference-counting pointer. Its view is the shared
/// value; the count is runtime state of the shared allocation, which no
/// single handle's view can carry.
pub struct Rc<T> {
    inner: std::rc::Rc<T>,
}

impl<T> View for Rc<T> {
    type V = T;

    closed spec fn view(&self) -> T {
        *self.inner
    }
}

impl<T> Rc<T> {
    /// Constructs a new shared pointer owning a fresh allocation that holds
    /// `val` beside a count of one.
    pub fn new(val: T) -> (r: Self)
        ensures
            r@ == val,
    {
        Rc { inner: std::rc::Rc::new(val) }
    }

    /// Gets the number of pointers currently sharing the allocation;
    /// observational only. Relies on `std::rc::Rc::strong_count`: this handle
    /// is alive, so the count is at least one.
    #[verifier::external_body]
    pub fn strong_count(&self) -> (r: usize)
        ensures
            r >= 1,
    {
        std::rc::Rc::strong_count(&self.inner)
    }

    /// Borrows the shared value, read-only. Relies on `std::rc::Rc`'s
    /// `Deref`: the reference leads to the value the pointer was constructed
    /// with.
    #[verifier::external_body]
    pub fn get(&self) -> (r: &T)
        ensures
            *r == self@,
    {
        &*self.inner
    }
}

impl<T> Clone for Rc<T> {
    /// Makes a clone of the pointer: a new handle aliasing the same
    /// allocation, raising the shared count by one. Relies on
    /// `std::rc::Rc::clone`, which returns a pointer to the same allocation
    /// (and aborts the process should the count ever overflow).
    #[verifier::external_body]
    fn clone(&self) -> (r: Self)
        ensures
            r@ == self@,
    {
        Rc { inner: std::rc::Rc::clone(&self.inner) }
    }
}

} // verus!
