use corekit::list::List;

#[test]
fn list_push_pop() {
    let mut list = List::new();

    list.push(3);
    list.push(4);

    let first = list.pop();
    assert_eq!(first.unwrap(), 4);

    let second = list.pop();
    assert_eq!(second.unwrap(), 3);
    assert_eq!(None, list.pop());
}

#[test]
fn list_head() {
    let mut list = List::new();
    assert_eq!(list.head(), None);
    list.push(3);
    assert_eq!(3, *list.head().unwrap());
}

#[test]
fn list_iter() {
    let mut list = List::new();
    list.push(1);
    list.push(2);

    let mut iter = list.iter();
    assert_eq!(*iter.next().unwrap(), 2);
    assert_eq!(*iter.next().unwrap(), 1);
    assert_eq!(iter.next(), None);

    assert_eq!(*list.head().unwrap(), 2);
}

#[test]
fn list_into_iter() {
    let mut list = List::new();
    list.push(1);
    list.push(2);

    let mut iter = list.into_iter();
    assert_eq!(iter.next().unwrap(), 2);
    assert_eq!(iter.next().unwrap(), 1);
    assert_eq!(iter.next(), None);
}

#[test]
fn list_head_mut() {
    let mut list = List::new();
    assert!(list.head_mut().is_none());

    list.push(1);
    list.push(2);

    if let Some(front) = list.head_mut() {
        *front = 5;
    }

    assert_eq!(*list.head().unwrap(), 5);
    assert_eq!(list.pop(), Some(5));
    assert_eq!(list.pop(), Some(1));
    assert_eq!(list.pop(), None);
}
