use corekit::vec::Vec;

#[test]
fn into_iter_test() {
    let mut v = Vec::new();
    v.push(1);
    v.push(2);
    v.push(3);

    let mut iter = v.into_iter();
    assert_eq!(iter.next().unwrap(), 1);
    assert_eq!(iter.next_back().unwrap(), 3);
    assert_eq!(iter.next().unwrap(), 2);
    assert_eq!(iter.next_back(), None);
}

#[test]
fn into_iter_front_back_exhausts() {
    let mut v = Vec::new();
    v.push(1);
    v.push(2);
    v.push(3);

    let mut iter = v.into_iter();
    assert_eq!(iter.next(), Some(1));
    assert_eq!(iter.next_back(), Some(3));
    assert_eq!(iter.next(), Some(2));
    assert_eq!(iter.next(), None);
    assert_eq!(iter.next_back(), None);
}

#[test]
fn drain_leaves_capacity() {
    let mut v = Vec::new();
    v.push(5);
    v.push(7);

    let mut iter = v.drain();
    assert_eq!(iter.next().unwrap(), 5);
    assert_eq!(iter.next_back().unwrap(), 7);
    assert_eq!(iter.next(), None);

    assert_eq!(v.capacity(), 2);
    assert_eq!(v.len(), 0);

    v.push(9);
    assert_eq!(v.len(), 1);
    assert_eq!(v.capacity(), 2);
}

#[test]
fn iterators_report_remaining_count() {
    let mut v = Vec::new();
    v.push(1);
    v.push(2);
    v.push(3);

    let mut iter = v.into_iter();
    assert_eq!(iter.len(), 3);
    iter.next();
    assert_eq!(iter.len(), 2);
    iter.next_back();
    assert_eq!(iter.len(), 1);

    let mut v = Vec::new();
    v.push(4);
    v.push(5);

    let mut drain = v.drain();
    assert_eq!(drain.len(), 2);
    drain.next();
    assert_eq!(drain.len(), 1);
    drain.next_back();
    assert_eq!(drain.len(), 0);
    assert_eq!(drain.next(), None);
}
