//! Thread-safe reference-counting pointers.
//!
//! `Arc<T>` provides the same shared-ownership contract as the
//! single-threaded variant, but counts atomically, so handles may be cloned
//! and destroyed concurrently from several threads of control without
//! external locking: the final release pairs a release-ordered decrement with
//! an acquire fence before the value is destroyed and the allocation freed,
//! exactly once.
//!
//! `Arc` disallows mutation: it hands out only read-only access to the shared
//! value.

use vstd::prelude::*;

verus! {

/// A thread-safe reference-counting pointer. Its view is the shared value;
/// the count is runtime state of the shared allocation, which no single
/// handle's view can carry.
pub struct Arc<T> {
    inner: std::sync::Arc<T>,
}

impl<T> View for Arc<T> {
    type V = T;

    closed spec fn view(&self) -> T {
        *self.inner
    }
}

impl<T> Arc<T> {
    /// Constructs a new shared pointer owning a fresh allocation that holds
    /// `val` beside an atomic count of one.
    pub fn new(val: T) -> (r: Self)
        ensures
            r@ == val,
    {
        Arc { inner: std::sync::Arc::new(val) }
    }

    /// Gets the number of pointers currently sharing the allocation;
    /// observational only, and a moment later other threads may have changed
    /// it. Relies on `std::sync::Arc::strong_count`: this handle is alive, so
    /// the count is at least one.
    #[verifier::external_body]
    pub fn strong_count(&self) -> (r: usize)
        ensures
            r >= 1,
    {
        std::sync::Arc::strong_count(&self.inner)
    }

    /// Borrows the shared value, read-only. Relies on `std::sync::Arc`'s
    /// `Deref`: the reference leads to the value the pointer was constructed
    /// with.
    #[verifier::external_body]
    pub fn get(&self) -> (r: &T)
        ensures
            *r == self@,
    {
        &*self.inner
    }
}

impl<T> Clone for Arc<T> {
    /// Makes a clone of the pointer: a new handle aliasing the same
    /// allocation, raising the shared count by one atomically. Relies on
    /// `std::sync::Arc::clone`, which returns a pointer to the same
    /// allocation (and aborts the process should the count ever overflow).
    #[verifier::external_body]
    fn clone(&self) -> (r: Self)
        ensures
            r@ == self@,
    {
        Arc { inner: std::sync::Arc::clone(&self.inner) }
    }
}

} // verus!
