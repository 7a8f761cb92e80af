//! A fixed-capacity FIFO queue.

use vstd::prelude::*;

verus! {

/// A first-in-first-out queue with a capacity fixed at construction.
///
/// The view lists the elements from newest to oldest: the last element of
/// the view is the oldest one still present, the one that `dequeue`
/// reaches, and `enqueue` prepends at the start of the view.
pub struct Queue<T> {
    data: Vec<T>,
    cap: usize,
}

impl<T> View for Queue<T> {
    type V = Seq<T>;

    closed spec fn view(&self) -> Seq<T> {
        self.data@
    }
}

impl<T> Queue<T> {
    /// Well-formedness: the length never exceeds the capacity.  `new`
    /// establishes it and every method preserves it.
    pub closed spec fn wf(&self) -> bool {
        self.data@.len() <= self.cap
    }

    /// The capacity the queue was created with; immutable thereafter.
    pub closed spec fn capacity(&self) -> usize {
        self.cap
    }

    /// Creates an empty queue that can hold up to `cap` elements.
    pub fn new(cap: usize) -> (q: Queue<T>)
        ensures
            q.wf(),
            q@ == Seq::<T>::empty(),
            q.capacity() == cap,
    {
        Queue { data: Vec::with_capacity(cap), cap }
    }

    /// Reports whether the queue holds no elements.
    pub fn is_empty(&self) -> (r: bool)
        ensures
            r <==> self@.len() == 0,
    {
        self.data.len() == 0
    }

    /// Reports how many elements the queue holds; never more than the
    /// capacity of a well-formed queue.
    pub fn len(&self) -> (r: usize)
        ensures
            r == self@.len(),
            self.wf() ==> r <= self.capacity(),
    {
        self.data.len()
    }

    /// Removes every element; the capacity is preserved.
    pub fn clear(&mut self)
        ensures
            final(self).wf(),
            final(self)@ == Seq::<T>::empty(),
            final(self).capacity() == old(self).capacity(),
    {
        self.data = Vec::with_capacity(self.cap);
    }

    /// Adds an element at the rear of the FIFO ordering, or refuses it when
    /// the queue is full.  The queue is unchanged on failure.
    pub fn enqueue(&mut self, item: T) -> (r: Result<(), String>)
        requires
            old(self).wf(),
        ensures
            final(self).wf(),
            r is Ok <==> old(self)@.len() < old(self).capacity(),
            r is Ok ==> final(self)@ == old(self)@.insert(0, item),
            r is Err ==> final(self)@ == old(self)@
                && (r matches Err(m) && m@ == "Queue is full"@),
            final(self).capacity() == old(self).capacity(),
    {
        if self.data.len() == self.cap {
            return Err("Queue is full".to_owned());
        }
        self.data.insert(0, item);
        Ok(())
    }

    /// Hands the queue to a consuming iterator that drains it in FIFO
    /// order, oldest element first.
    pub fn into_iter(self) -> (it: IntoIter<T>)
        ensures
            it.remaining() == self@,
    {
        IntoIter(self)
    }

    /// Returns a borrowing iterator that yields one borrow per element, in
    /// FIFO order, leaving the queue unchanged.
    pub fn iter(&self) -> (it: Iter<&T>)
        ensures
            it.remaining() == self@,
    {
        Iter { queue: crate::traverse::collect_refs(&self.data) }
    }

    /// Returns a mutable-borrowing iterator that yields one mutable borrow
    /// per element, in FIFO order.  The queue keeps its length and finally
    /// holds, position by position, whatever is written through the
    /// borrows.
    pub fn iter_mut<'a>(&'a mut self) -> (it: IterMut<&'a mut T>)
        requires
            old(self).wf(),
        ensures
            final(self).wf(),
            it.remaining() == old(self)@,
            final(self)@.len() == old(self)@.len(),
            forall|i: int| 0 <= i < it.borrows().len() ==> final(self)@[i] == *final(
                #[trigger] it.borrows()[i]
            ),
            final(self).capacity() == old(self).capacity(),
    {
        let refs = crate::traverse::collect_mut_refs(self.data.as_mut_slice());
        IterMut { queue: refs }
    }

    /// Removes and returns the oldest element still present, or `None` on
    /// an empty queue.
    pub fn dequeue(&mut self) -> (r: Option<T>)
        requires
            old(self).wf(),
        ensures
            final(self).wf(),
            old(self)@.len() == 0 ==> r is None && final(self)@ == old(self)@,
            old(self)@.len() > 0 ==> r == Some(old(self)@.last())
                && final(self)@ == old(self)@.drop_last(),
            final(self).capacity() == old(self).capacity(),
    {
        if self.data.len() == 0 {
            return None;
        }
        self.data.pop()
    }
}

/// The sequence of elements that repeated `dequeue` returns until the
/// queue is empty, read off `dequeue`'s contract: each step takes the
/// last element of the view — the oldest element — and drops it.
pub open spec fn removal_order<T>(s: Seq<T>) -> Seq<T>
    decreases s.len(),
{
    if s.len() == 0 {
        Seq::empty()
    } else {
        seq![s.last()] + removal_order(s.drop_last())
    }
}

/// Traversal-consistency law for a queue whose view is `s`: the consuming
/// iterator steps by the same last-then-drop contract as `dequeue`, and
/// `iter` and `iter_mut` hand out borrows of the same elements in the
/// same order, so every traversal yields `removal_order(s)` — the
/// elements oldest first, the reverse of the view.
pub proof fn lemma_traversal_order<T>(s: Seq<T>)
    ensures
        removal_order(s) == crate::traverse::drain_order(s),
        removal_order(s) == s.reverse(),
    decreases s.len(),
{
    crate::traverse::lemma_drain_order_is_reverse(s);
    if s.len() == 0 {
        assert(removal_order(s) =~= crate::traverse::drain_order(s));
    } else {
        lemma_traversal_order(s.drop_last());
        assert(removal_order(s) =~= crate::traverse::drain_order(s));
    }
}

/// A consuming iterator over a queue: it drains the queue, yielding the
/// remaining elements in FIFO order, oldest first.
pub struct IntoIter<T>(Queue<T>);

impl<T> IntoIter<T> {
    /// The elements not yet yielded; `next` takes them from the end.
    pub closed spec fn remaining(&self) -> Seq<T> {
        self.0@
    }

    /// Removes and returns the oldest remaining element, or `None` once
    /// the queue is drained.
    pub fn next(&mut self) -> (r: Option<T>)
        ensures
            old(self).remaining().len() == 0 ==> r is None
                && final(self).remaining() == old(self).remaining(),
            old(self).remaining().len() > 0 ==> r == Some(old(self).remaining().last())
                && final(self).remaining() == old(self).remaining().drop_last(),
    {
        if self.0.data.len() > 0 {
            self.0.data.pop()
        } else {
            None
        }
    }
}

/// A borrowing iterator over a queue: it holds one borrow per element and
/// yields them in FIFO order, oldest first.
pub struct Iter<T> {
    queue: Vec<T>,
}

impl<'a, T> Iter<&'a T> {
    /// The values still to be yielded; `next` takes them from the end.
    pub closed spec fn remaining(&self) -> Seq<T> {
        crate::traverse::ref_values(self.queue@)
    }

    /// Returns a borrow of the oldest remaining element, or `None` once
    /// every element was yielded.
    pub fn next(&mut self) -> (r: Option<&'a T>)
        ensures
            old(self).remaining().len() == 0 ==> r is None
                && final(self).remaining() == old(self).remaining(),
            old(self).remaining().len() > 0 ==> (r matches Some(x)
                && *x == old(self).remaining().last()
                && final(self).remaining() == old(self).remaining().drop_last()),
    {
        if self.queue.len() > 0 {
            let r = self.queue.pop();
            proof {
                assert(crate::traverse::ref_values(self.queue@) =~= old(
                    self,
                ).remaining().drop_last());
            }
            r
        } else {
            None
        }
    }
}

/// A mutable-borrowing iterator over a queue: it holds one mutable borrow
/// per element and yields them in FIFO order, oldest first.
pub struct IterMut<T> {
    queue: Vec<T>,
}

impl<'a, T> IterMut<&'a mut T> {
    /// The borrows still to be yielded, in storage order; `next` takes
    /// them from the end.
    pub closed spec fn borrows(&self) -> Seq<&'a mut T> {
        self.queue@
    }

    /// The values currently behind the borrows still to be yielded.
    pub open spec fn remaining(&self) -> Seq<T> {
        crate::traverse::current_values(self.borrows())
    }

    /// Returns a mutable borrow of the oldest remaining element, or `None`
    /// once every element was yielded.
    pub fn next(&mut self) -> (r: Option<&'a mut T>)
        ensures
            old(self).remaining().len() == 0 ==> r is None
                && final(self).borrows() == old(self).borrows(),
            old(self).remaining().len() > 0 ==> (r matches Some(x)
                && x == old(self).borrows().last()
                && *x == old(self).remaining().last()
                && final(self).borrows() == old(self).borrows().drop_last()
                && final(self).remaining() == old(self).remaining().drop_last()),
    {
        if self.queue.len() > 0 {
            let r = self.queue.pop();
            proof {
                assert(crate::traverse::current_values(self.queue@) =~= old(
                    self,
                ).remaining().drop_last());
            }
            r
        } else {
            None
        }
    }
}

} // verus!
