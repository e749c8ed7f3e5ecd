use corekit::vec::Vec;

struct B(i32);

impl Drop for B {
    fn drop(&mut self) {
        println!("dropping B in vec_test.rs");
    }
}

#[test]
fn vec_with_drop_objects() {
    let mut v = Vec::new();

    v.push(B(5));
    v.push(B(5));
    v.push(B(5));
}

#[test]
fn vec_push() {
    let mut v: Vec<i32> = Vec::new();

    v.push(1);
    assert_eq!(v.capacity(), 1);
    v.push(2);
    assert_eq!(v.capacity(), 2);
    v.push(3);
    assert_eq!(v.capacity(), 4);
}

#[test]
fn vec_pop() {
    let mut v: Vec<i32> = Vec::new();

    v.push(1);
    assert_eq!(v.capacity(), 1);
    v.push(2);
    assert_eq!(v.capacity(), 2);
    v.push(3);
    assert_eq!(v.capacity(), 4);

    v.pop();
    assert_eq!(v.len(), 2);
    v.pop();
    assert_eq!(v.len(), 1);
    assert_eq!(v.capacity(), 4);
}

#[test]
fn vec_insert() {
    let mut v: Vec<i32> = Vec::new();

    v.insert(0, 5);
    v.insert(0, 10);
    v.insert(1, 15);

    assert_eq!(*v.get(0), 10);
    assert_eq!(*v.get(1), 15);
    assert_eq!(*v.get(2), 5);
}

#[test]
fn vec_remove() {
    let mut v: Vec<i32> = Vec::new();

    v.insert(0, 5);
    v.insert(0, 10);
    v.insert(1, 15);

    assert_eq!(*v.get(0), 10);
    assert_eq!(*v.get(1), 15);
    assert_eq!(*v.get(2), 5);

    let removed = v.remove(1);
    assert_eq!(removed, 15);
    assert_eq!(*v.get(0), 10);
    assert_eq!(*v.get(1), 5);
    assert_eq!(v.len(), 2);

    v.remove(1);
    assert_eq!(*v.get(0), 10);
    assert_eq!(v.len(), 1);
}

#[test]
fn vec_pop_empty_yields_nothing() {
    let mut v: Vec<i32> = Vec::new();
    assert!(v.pop().is_none());
    v.push(5);
    assert_eq!(v.pop(), Some(5));
    assert!(v.pop().is_none());
}

#[test]
fn vec_insert_into_singleton() {
    let mut v: Vec<i32> = Vec::new();
    v.push(5);
    v.insert(0, 10);
    assert_eq!(*v.get(0), 10);
    assert_eq!(*v.get(1), 5);
}

#[test]
fn vec_mutate_in_place() {
    let mut v: Vec<i32> = Vec::new();
    v.push(1);
    v.push(2);

    *v.get_mut(0) = 10;
    *v.get_mut(1) += 5;

    assert_eq!(*v.get(0), 10);
    assert_eq!(*v.get(1), 7);
    assert_eq!(v.len(), 2);
}

#[test]
fn zero_sized_elements_keep_length() {
    let mut v: Vec<()> = Vec::new();
    assert_eq!(v.capacity(), usize::MAX);

    v.push(());
    v.push(());
    v.push(());
    assert_eq!(v.len(), 3);
    assert_eq!(v.capacity(), usize::MAX);

    assert_eq!(v.pop(), Some(()));
    assert_eq!(v.len(), 2);
}

#[test]
fn zero_sized_elements_in_list() {
    let mut list: corekit::list::List<()> = corekit::list::List::new();
    list.push(());
    list.push(());
    assert_eq!(list.pop(), Some(()));
    assert_eq!(list.pop(), Some(()));
    assert_eq!(list.pop(), None);
}
