use std::cell::Cell;

use corekit::arc_ptr::Arc;
use corekit::box_ptr::Box;
use corekit::rc_ptr::Rc;

struct T(i32);

#[test]
fn test_box() {
    let mut b = Box::new(T(5));
    b.get_mut().0 = 10;

    assert_eq!(b.get().0, 10);
    assert_eq!(b.into_inner().0, 10);
}

#[test]
fn box_replace_returns_previous() {
    let mut b = Box::new(T(5));
    let prev = b.replace(T(10));

    assert_eq!(prev.0, 5);
    assert_eq!(b.get().0, 10);
}

fn consume_rc(_rc: Rc<i32>) {}

#[test]
fn test_rc_ptr() {
    let first = Rc::new(5);

    assert_eq!(1, Rc::strong_count(&first));

    let second = Rc::clone(&first);

    assert_eq!(2, Rc::strong_count(&first));

    consume_rc(second);

    assert_eq!(1, Rc::strong_count(&first));
}

struct Tally(std::rc::Rc<Cell<i32>>);

impl Drop for Tally {
    fn drop(&mut self) {
        self.0.set(self.0.get() + 1);
    }
}

#[test]
fn rc_value_dropped_exactly_once() {
    let hits = std::rc::Rc::new(Cell::new(0));
    let first = Rc::new(Tally(hits.clone()));
    let second = Rc::clone(&first);

    assert_eq!(first.get().0.get(), second.get().0.get());

    drop(first);
    assert_eq!(hits.get(), 0);

    drop(second);
    assert_eq!(hits.get(), 1);
}

#[test]
fn rc_shares_the_value() {
    let first = Rc::new(7);
    let second = Rc::clone(&first);

    assert_eq!(*first.get(), 7);
    assert_eq!(*second.get(), 7);
}

fn consume_arc(_arc: Arc<i32>) {}

#[test]
fn arc_counts_and_shares() {
    let first = Arc::new(10);

    assert_eq!(1, Arc::strong_count(&first));
    assert_eq!(*first.get(), 10);

    let second = Arc::clone(&first);

    assert_eq!(2, Arc::strong_count(&first));
    assert_eq!(*second.get(), 10);

    consume_arc(second);

    assert_eq!(1, Arc::strong_count(&first));
}

struct ArcTally(std::sync::Arc<Cell<i32>>);

impl Drop for ArcTally {
    fn drop(&mut self) {
        self.0.set(self.0.get() + 1);
    }
}

#[test]
fn arc_value_dropped_exactly_once() {
    let hits = std::sync::Arc::new(Cell::new(0));
    let first = Arc::new(ArcTally(hits.clone()));
    let second = Arc::clone(&first);
    let third = Arc::clone(&second);

    drop(second);
    drop(first);
    assert_eq!(hits.get(), 0);

    drop(third);
    assert_eq!(hits.get(), 1);
}

#[test]
fn arc_many_clones_drop_to_one() {
    let top_level = Arc::new(10);
    let mut clones = Vec::with_capacity(10);

    for _ in 0..10 {
        let inner_level = Arc::clone(&top_level);
        assert_eq!(*inner_level.get(), 10);
        clones.push(inner_level);
    }

    assert_eq!(11, Arc::strong_count(&top_level));

    for c in clones {
        drop(c);
    }

    assert_eq!(1, Arc::strong_count(&top_level));
}
