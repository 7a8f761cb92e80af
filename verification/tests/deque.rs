use containers::deque::Deque;

#[allow(non_snake_case)]
#[test]
fn Deque() {
    let mut deque = Deque::new(3);
    let _ = deque.add_rear(2);
    let _ = deque.add_rear(3);
    let _ = deque.add_front(1);

    let r = deque.add_front(1);
    assert_eq!(r, Err("Deque is full".to_string()));
    assert_eq!(deque.len(), 3);
    assert_eq!(deque.remove_rear(), Some(3));
    assert_eq!(deque.remove_front(), Some(1));
    assert_eq!(deque.remove_front(), Some(2));
    assert_eq!(deque.remove_front(), None);
    assert_eq!(deque.is_empty(), true);
}

#[test]
fn lib_into_iter() {
    let mut deque = Deque::new(3);
    let _ = deque.add_rear(2);
    let _ = deque.add_rear(3);
    let _ = deque.add_front(1);

    let mut iter = deque.into_iter();
    assert_eq!(iter.next(), Some(1));
    assert_eq!(iter.next(), Some(2));
    assert_eq!(iter.next(), Some(3));
    assert_eq!(iter.next(), None);
}
