//! Array-backed linear containers.
//!
//! Three independent components, each generic over its element type:
//!
//! * [`deque::Deque`] — a fixed-capacity double-ended queue;
//! * [`queue::Queue`] — a fixed-capacity FIFO queue;
//! * [`stack::Stack`] — an unbounded LIFO stack.
//!
//! Each container is backed by a single vector whose last element is the
//! next one to leave, offers insertion, removal, peeking and clearing, and
//! hands out its elements through a consuming, a borrowing and a
//! mutable-borrowing iterator.  Capacity violations and removal from an
//! empty container are reported as values (`Err` or `None`), never as
//! panics.

pub mod deque;
pub mod queue;
pub mod stack;
pub mod traverse;
