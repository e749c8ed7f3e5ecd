//! Hand-built ownership and collection primitives with verified contracts:
//! four in-place sorts, a string tokenizer, a singly linked list, exclusive
//! and shared heap pointers, and a growable buffer with a doubling policy.

pub mod arc_ptr;
pub mod box_ptr;
pub mod bubble;
pub mod insertion;
pub mod list;
pub mod merge;
pub mod quick;
pub mod raw_vec;
pub mod rc_ptr;
pub mod sorting;
pub mod strings;
pub mod vec;
pub mod vec_iter;
