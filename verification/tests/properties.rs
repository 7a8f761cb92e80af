use containers::deque::Deque;
use containers::queue::Queue;
use containers::stack::Stack;

#[test]
fn deque_full_rejects_both_ends() {
    let mut deque = Deque::new(3);
    assert_eq!(deque.add_rear(2), Ok(()));
    assert_eq!(deque.add_rear(3), Ok(()));
    assert_eq!(deque.add_front(1), Ok(()));
    assert_eq!(deque.len(), 3);
    assert_eq!(deque.add_front(7), Err("Deque is full".to_string()));
    assert_eq!(deque.add_rear(7), Err("Deque is full".to_string()));
    assert_eq!(deque.len(), 3);
}

#[test]
fn queue_full_rejects_after_capacity_insertions() {
    let mut queue = Queue::new(2);
    assert_eq!(queue.enqueue(10), Ok(()));
    assert_eq!(queue.enqueue(20), Ok(()));
    assert_eq!(queue.len(), 2);
    assert_eq!(queue.enqueue(30), Err("Queue is full".to_string()));
    assert_eq!(queue.len(), 2);
}

#[test]
fn zero_capacity_rejects_first_insertion() {
    let mut deque = Deque::new(0);
    assert_eq!(deque.add_front(1), Err("Deque is full".to_string()));
    let mut queue = Queue::new(0);
    assert_eq!(queue.enqueue(1), Err("Queue is full".to_string()));
    assert!(deque.is_empty());
    assert!(queue.is_empty());
}

#[test]
fn deque_clear_preserves_capacity() {
    let mut deque = Deque::new(2);
    let _ = deque.add_front(1);
    let _ = deque.add_front(2);
    deque.clear();
    assert!(deque.is_empty());
    assert_eq!(deque.add_front(3), Ok(()));
    assert_eq!(deque.add_front(4), Ok(()));
    assert_eq!(deque.add_front(5), Err("Deque is full".to_string()));
}

#[test]
fn queue_clear_preserves_capacity() {
    let mut queue = Queue::new(2);
    let _ = queue.enqueue(1);
    let _ = queue.enqueue(2);
    queue.clear();
    assert!(queue.is_empty());
    assert_eq!(queue.enqueue(3), Ok(()));
    assert_eq!(queue.enqueue(4), Ok(()));
    assert_eq!(queue.enqueue(5), Err("Queue is full".to_string()));
}

#[test]
fn stack_clear_empties() {
    let mut stack = Stack::new();
    stack.push(1);
    stack.push(2);
    stack.clear();
    assert!(stack.is_empty());
    assert_eq!(stack.len(), 0);
    assert_eq!(stack.pop(), None);
}

#[test]
fn stack_peek_mut_updates_top() {
    let mut stack = Stack::new();
    stack.push(1);
    stack.push(2);
    assert_eq!(stack.peek(), Some(&2));
    if let Some(top) = stack.peek_mut() {
        *top = 9;
    }
    assert_eq!(stack.len(), 2);
    assert_eq!(stack.pop(), Some(9));
    assert_eq!(stack.pop(), Some(1));
}

#[test]
fn deque_traversals_agree() {
    let mut a = Deque::new(4);
    let mut b = Deque::new(4);
    for x in [2, 3, 4] {
        let _ = a.add_rear(x);
        let _ = b.add_rear(x);
    }
    let _ = a.add_front(1);
    let _ = b.add_front(1);

    let mut removed = Vec::new();
    while let Some(x) = a.remove_front() {
        removed.push(x);
    }
    let mut borrowed = Vec::new();
    let mut it = b.iter();
    while let Some(x) = it.next() {
        borrowed.push(*x);
    }
    assert_eq!(b.len(), 4);
    let mut consumed = Vec::new();
    let mut into = b.into_iter();
    while let Some(x) = into.next() {
        consumed.push(x);
    }
    assert_eq!(removed, vec![1, 2, 3, 4]);
    assert_eq!(consumed, removed);
    assert_eq!(borrowed, removed);
}

#[test]
fn queue_traversals_agree() {
    let mut a = Queue::new(3);
    let mut b = Queue::new(3);
    for x in [1, 2, 3] {
        let _ = a.enqueue(x);
        let _ = b.enqueue(x);
    }

    let mut removed = Vec::new();
    while let Some(x) = a.dequeue() {
        removed.push(x);
    }
    let mut borrowed = Vec::new();
    let mut it = b.iter();
    while let Some(x) = it.next() {
        borrowed.push(*x);
    }
    assert_eq!(b.len(), 3);
    let mut consumed = Vec::new();
    let mut into = b.into_iter();
    while let Some(x) = into.next() {
        consumed.push(x);
    }
    assert_eq!(removed, vec![1, 2, 3]);
    assert_eq!(consumed, removed);
    assert_eq!(borrowed, removed);
}

#[test]
fn stack_traversals_agree() {
    let mut a = Stack::new();
    let mut b = Stack::new();
    for x in [1, 2, 3] {
        a.push(x);
        b.push(x);
    }

    let mut removed = Vec::new();
    while let Some(x) = a.pop() {
        removed.push(x);
    }
    let mut borrowed = Vec::new();
    let mut it = b.iter();
    while let Some(x) = it.next() {
        borrowed.push(*x);
    }
    assert_eq!(b.len(), 3);
    let mut mutated = Vec::new();
    let mut mit = b.iter_mut();
    while let Some(x) = mit.next() {
        mutated.push(*x);
    }
    assert_eq!(b.len(), 3);
    let mut consumed = Vec::new();
    let mut into = b.into_iter();
    while let Some(x) = into.next() {
        consumed.push(x);
    }
    assert_eq!(removed, vec![3, 2, 1]);
    assert_eq!(consumed, removed);
    assert_eq!(borrowed, removed);
    assert_eq!(mutated, removed);
}

#[test]
fn deque_empty_removals() {
    let mut deque: Deque<i32> = Deque::new(2);
    assert_eq!(deque.remove_front(), None);
    assert_eq!(deque.remove_rear(), None);
    assert!(!deque.is_full());
}

#[test]
fn stack_empty_peeks() {
    let mut stack: Stack<i32> = Stack::new();
    assert_eq!(stack.peek(), None);
    assert!(stack.peek_mut().is_none());
    assert_eq!(stack.pop(), None);
}

#[test]
fn add_reports_sum() {
    assert_eq!(containers::deque::add(2, 2), 4);
    assert_eq!(containers::deque::add(0, 7), 7);
}
