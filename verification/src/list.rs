//! A singly linked list where each element is an independently heap-allocated
//! exclusively-owned cell; push and pop work on the front only.

use vstd::prelude::*;

verus! {

struct Node<T> {
    next: Option<std::boxed::Box<Node<T>>>,
    data: T,
}

/// The elements hanging off a link, front to back.
spec fn link_view<T>(l: Option<std::boxed::Box<Node<T>>>) -> Seq<T>
    decreases l,
{
    match l {
        None => Seq::empty(),
        Some(node) => seq![node.data] + link_view(node.next),
    }
}

/// A singly linked list. Its view is the sequence of elements, front first.
pub struct List<T> {
    head: Option<std::boxed::Box<Node<T>>>,
}

impl<T> View for List<T> {
    type V = Seq<T>;

    closed spec fn view(&self) -> Seq<T> {
        link_view(self.head)
    }
}

impl<T> List<T> {
    /// Creates a new empty list.
    pub fn new() -> (r: Self)
        ensures
            r@ == Seq::<T>::empty(),
    {
        List { head: None }
    }

    /// Pushes a new element onto the front of the list.
    pub fn push(&mut self, elem: T)
        ensures
            final(self)@ == seq![elem] + old(self)@,
    {
        let next = self.head.take();
        self.head = Some(std::boxed::Box::new(Node { next, data: elem }));
    }

    /// Pops the front element off the list, if there is one.
    pub fn pop(&mut self) -> (r: Option<T>)
        ensures
            old(self)@.len() == 0 ==> r is None && final(self)@ == old(self)@,
            old(self)@.len() > 0 ==> r == Some(old(self)@[0]) && final(self)@ == old(
                self,
            )@.drop_first(),
    {
        match self.head.take() {
            None => None,
            Some(node) => {
                let node = *node;
                self.head = node.next;
                Some(node.data)
            },
        }
    }

    /// Borrows the front element of the list, if there is one.
    pub fn head(&self) -> (r: Option<&T>)
        ensures
            self@.len() == 0 ==> r is None,
            self@.len() > 0 ==> (r matches Some(x) && *x == self@[0]),
    {
        match &self.head {
            None => None,
            Some(node) => Some(&node.data),
        }
    }

    /// Borrows the front element mutably, if there is one: whatever the
    /// caller writes through the reference is what the front holds
    /// afterwards, and the rest of the list stays as it is.
    pub fn head_mut(&mut self) -> (r: Option<&mut T>)
        ensures
            old(self)@.len() == 0 ==> r is None && final(self)@ == old(self)@,
            old(self)@.len() > 0 ==> (r matches Some(x) && *x == old(self)@[0] && final(self)@
                == old(self)@.update(0, *final(x))),
    {
        match &mut self.head {
            None => None,
            Some(node) => Some(&mut node.data),
        }
    }

    /// Returns an iterator borrowing the contents of the list, front first.
    pub fn iter<'a>(&'a self) -> (it: Iter<'a, T>)
        ensures
            it@ == self@,
    {
        Iter {
            next: match &self.head {
                None => None,
                Some(node) => Some(&**node),
            },
        }
    }

    /// Returns an iterator that consumes the list, yielding the elements
    /// front first.
    pub fn into_iter(self) -> (it: IntoIter<T>)
        ensures
            it@ == self@,
    {
        IntoIter(self)
    }
}

/// An iterator that owns the list and hands its elements out by value. Its
/// view is the sequence of elements not yet yielded.
pub struct IntoIter<T>(List<T>);

impl<T> View for IntoIter<T> {
    type V = Seq<T>;

    closed spec fn view(&self) -> Seq<T> {
        self.0@
    }
}

impl<T> IntoIter<T> {
    /// Yields the next element, front to back, until none remain.
    pub fn next(&mut self) -> (r: Option<T>)
        ensures
            old(self)@.len() == 0 ==> r is None && final(self)@ == old(self)@,
            old(self)@.len() > 0 ==> r == Some(old(self)@[0]) && final(self)@ == old(
                self,
            )@.drop_first(),
    {
        self.0.pop()
    }
}

/// An iterator that borrows the list. Its view is the sequence of elements
/// not yet visited.
pub struct Iter<'a, T> {
    next: Option<&'a Node<T>>,
}

impl<'a, T> View for Iter<'a, T> {
    type V = Seq<T>;

    closed spec fn view(&self) -> Seq<T> {
        match self.next {
            None => Seq::empty(),
            Some(node) => seq![node.data] + link_view(node.next),
        }
    }
}

impl<'a, T> Iter<'a, T> {
    /// Yields a reference to the next element, front to back, until none
    /// remain.
    pub fn next(&mut self) -> (r: Option<&'a T>)
        ensures
            old(self)@.len() == 0 ==> r is None && final(self)@ == old(self)@,
            old(self)@.len() > 0 ==> (r matches Some(x) && *x == old(self)@[0]) && final(self)@
                == old(self)@.drop_first(),
    {
        match self.next {
            None => None,
            Some(node) => {
                self.next = match &node.next {
                    None => None,
                    Some(next_node) => Some(&**next_node),
                };
                Some(&node.data)
            },
        }
    }
}

} // verus!
