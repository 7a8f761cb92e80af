//! A fixed-capacity double-ended queue.

use vstd::prelude::*;

verus! {

/// A double-ended queue with a capacity fixed at construction.
///
/// The view lists the elements from rear to front: the last element of the
/// view is the front, the one that `remove_front` reaches, and the first
/// element is the rear, the one that `remove_rear` reaches.  `add_front`
/// therefore appends at the end of the view and `add_rear` prepends at its
/// start.
pub struct Deque<T> {
    data: Vec<T>,
    cap: usize,
}

impl<T> View for Deque<T> {
    type V = Seq<T>;

    closed spec fn view(&self) -> Seq<T> {
        self.data@
    }
}

impl<T> Deque<T> {
    /// Well-formedness: the length never exceeds the capacity.  `new`
    /// establishes it and every method preserves it.
    pub closed spec fn wf(&self) -> bool {
        self.data@.len() <= self.cap
    }

    /// The capacity the deque was created with; immutable thereafter.
    pub closed spec fn capacity(&self) -> usize {
        self.cap
    }

    /// Creates an empty deque that can hold up to `cap` elements.
    pub fn new(cap: usize) -> (d: Deque<T>)
        ensures
            d.wf(),
            d@ == Seq::<T>::empty(),
            d.capacity() == cap,
    {
        Deque { data: Vec::with_capacity(cap), cap }
    }

    /// Reports whether the deque holds no elements.
    pub fn is_empty(&self) -> (r: bool)
        ensures
            r <==> self@.len() == 0,
    {
        self.data.len() == 0
    }

    /// Reports how many elements the deque holds; never more than the
    /// capacity of a well-formed deque.
    pub fn len(&self) -> (r: usize)
        ensures
            r == self@.len(),
            self.wf() ==> r <= self.capacity(),
    {
        self.data.len()
    }

    /// Removes every element; the capacity is preserved.
    pub fn clear(&mut self)
        ensures
            final(self).wf(),
            final(self)@ == Seq::<T>::empty(),
            final(self).capacity() == old(self).capacity(),
    {
        self.data = Vec::with_capacity(self.cap);
    }

    /// Reports whether the deque is at capacity, so that the next insertion
    /// at either end would fail.
    pub fn is_full(&self) -> (r: bool)
        ensures
            r <==> self@.len() == self.capacity(),
    {
        self.data.len() == self.cap
    }

    /// Adds an element at the front, or refuses it when the deque is full.
    /// The deque is unchanged on failure.
    pub fn add_front(&mut self, item: T) -> (r: Result<(), String>)
        requires
            old(self).wf(),
        ensures
            final(self).wf(),
            r is Ok <==> old(self)@.len() < old(self).capacity(),
            r is Ok ==> final(self)@ == old(self)@.push(item),
            r is Err ==> final(self)@ == old(self)@
                && (r matches Err(m) && m@ == "Deque is full"@),
            final(self).capacity() == old(self).capacity(),
    {
        if self.is_full() {
            return Err("Deque is full".to_owned());
        }
        self.data.push(item);
        Ok(())
    }

    /// Adds an element at the rear, or refuses it when the deque is full.
    /// The deque is unchanged on failure.
    pub fn add_rear(&mut self, item: T) -> (r: Result<(), String>)
        requires
            old(self).wf(),
        ensures
            final(self).wf(),
            r is Ok <==> old(self)@.len() < old(self).capacity(),
            r is Ok ==> final(self)@ == old(self)@.insert(0, item),
            r is Err ==> final(self)@ == old(self)@
                && (r matches Err(m) && m@ == "Deque is full"@),
            final(self).capacity() == old(self).capacity(),
    {
        if self.is_full() {
            return Err("Deque is full".to_owned());
        }
        self.data.insert(0, item);
        Ok(())
    }

    /// Removes and returns the front element, or `None` on an empty deque.
    pub fn remove_front(&mut self) -> (r: Option<T>)
        requires
            old(self).wf(),
        ensures
            final(self).wf(),
            old(self)@.len() == 0 ==> r is None && final(self)@ == old(self)@,
            old(self)@.len() > 0 ==> r == Some(old(self)@.last())
                && final(self)@ == old(self)@.drop_last(),
            final(self).capacity() == old(self).capacity(),
    {
        if self.data.len() > 0 {
            return self.data.pop();
        }
        None
    }

    /// Hands the deque to a consuming iterator that drains it in
    /// front-to-rear removal order.
    pub fn into_iter(self) -> (it: IntoIter<T>)
        ensures
            it.remaining() == self@,
    {
        IntoIter(self)
    }

    /// Returns a borrowing iterator that yields one borrow per element, in
    /// front-to-rear removal order, leaving the deque unchanged.
    pub fn iter(&self) -> (it: Iter<&T>)
        ensures
            it.remaining() == self@,
    {
        Iter { queue: crate::traverse::collect_refs(&self.data) }
    }

    /// Returns a mutable-borrowing iterator that yields one mutable borrow
    /// per element, in front-to-rear removal order.  The deque keeps its
    /// length and finally holds, position by position, whatever is written
    /// through the borrows.
    pub fn iter_mut<'a>(&'a mut self) -> (it: IterMut<&'a mut T>)
        requires
            old(self).wf(),
        ensures
            final(self).wf(),
            it.remaining() == old(self)@,
            final(self)@.len() == old(self)@.len(),
            forall|i: int| 0 <= i < it.borrows().len() ==> final(self)@[i] == *final(
                #[trigger] it.borrows()[i]
            ),
            final(self).capacity() == old(self).capacity(),
    {
        let refs = crate::traverse::collect_mut_refs(self.data.as_mut_slice());
        IterMut { queue: refs }
    }

    /// Removes and returns the rear element, or `None` on an empty deque.
    pub fn remove_rear(&mut self) -> (r: Option<T>)
        requires
            old(self).wf(),
        ensures
            final(self).wf(),
            old(self)@.len() == 0 ==> r is None && final(self)@ == old(self)@,
            old(self)@.len() > 0 ==> r == Some(old(self)@.first())
                && final(self)@ == old(self)@.remove(0),
            final(self).capacity() == old(self).capacity(),
    {
        if self.data.len() > 0 {
            return Some(self.data.remove(0));
        }
        None
    }
}

/// The sequence of elements that repeated `remove_front` returns until
/// the deque is empty, read off `remove_front`'s contract: each step
/// takes the last element of the view and drops it.
pub open spec fn removal_order<T>(s: Seq<T>) -> Seq<T>
    decreases s.len(),
{
    if s.len() == 0 {
        Seq::empty()
    } else {
        seq![s.last()] + removal_order(s.drop_last())
    }
}

/// Traversal-consistency law for a deque whose view is `s`: the consuming
/// iterator steps by the same last-then-drop contract as `remove_front`,
/// and `iter` and `iter_mut` hand out borrows of the same elements in the
/// same order, so every traversal yields `removal_order(s)` — the
/// elements from front to rear, the reverse of the view.
pub proof fn lemma_traversal_order<T>(s: Seq<T>)
    ensures
        removal_order(s) == crate::traverse::drain_order(s),
        removal_order(s) == s.reverse(),
    decreases s.len(),
{
    crate::traverse::lemma_drain_order_is_reverse(s);
    if s.len() == 0 {
        assert(removal_order(s) =~= crate::traverse::drain_order(s));
    } else {
        lemma_traversal_order(s.drop_last());
        assert(removal_order(s) =~= crate::traverse::drain_order(s));
    }
}

/// A consuming iterator over a deque: it drains the deque, yielding the
/// remaining elements in front-to-rear removal order.
pub struct IntoIter<T>(Deque<T>);

impl<T> IntoIter<T> {
    /// The elements not yet yielded; `next` takes them from the end.
    pub closed spec fn remaining(&self) -> Seq<T> {
        self.0@
    }

    /// Removes and returns the front-most remaining element, or `None`
    /// once the deque is drained.
    pub fn next(&mut self) -> (r: Option<T>)
        ensures
            old(self).remaining().len() == 0 ==> r is None
                && final(self).remaining() == old(self).remaining(),
            old(self).remaining().len() > 0 ==> r == Some(old(self).remaining().last())
                && final(self).remaining() == old(self).remaining().drop_last(),
    {
        if self.0.data.len() > 0 {
            return self.0.data.pop();
        }
        None
    }
}

/// A borrowing iterator over a deque: it holds one borrow per element and
/// yields them in front-to-rear removal order.
pub struct Iter<T> {
    queue: Vec<T>,
}

impl<'a, T> Iter<&'a T> {
    /// The values still to be yielded; `next` takes them from the end.
    pub closed spec fn remaining(&self) -> Seq<T> {
        crate::traverse::ref_values(self.queue@)
    }

    /// Returns a borrow of the front-most remaining element, or `None`
    /// once every element was yielded.
    pub fn next(&mut self) -> (r: Option<&'a T>)
        ensures
            old(self).remaining().len() == 0 ==> r is None
                && final(self).remaining() == old(self).remaining(),
            old(self).remaining().len() > 0 ==> (r matches Some(x)
                && *x == old(self).remaining().last()
                && final(self).remaining() == old(self).remaining().drop_last()),
    {
        if self.queue.len() > 0 {
            let r = self.queue.pop();
            proof {
                assert(crate::traverse::ref_values(self.queue@) =~= old(
                    self,
                ).remaining().drop_last());
            }
            return r;
        }
        None
    }
}

/// A mutable-borrowing iterator over a deque: it holds one mutable borrow
/// per element and yields them in front-to-rear removal order.
pub struct IterMut<T> {
    queue: Vec<T>,
}

impl<'a, T> IterMut<&'a mut T> {
    /// The borrows still to be yielded, in storage order; `next` takes
    /// them from the end.
    pub closed spec fn borrows(&self) -> Seq<&'a mut T> {
        self.queue@
    }

    /// The values currently behind the borrows still to be yielded.
    pub open spec fn remaining(&self) -> Seq<T> {
        crate::traverse::current_values(self.borrows())
    }

    /// Returns a mutable borrow of the front-most remaining element, or
    /// `None` once every element was yielded.
    pub fn next(&mut self) -> (r: Option<&'a mut T>)
        ensures
            old(self).remaining().len() == 0 ==> r is None
                && final(self).borrows() == old(self).borrows(),
            old(self).remaining().len() > 0 ==> (r matches Some(x)
                && x == old(self).borrows().last()
                && *x == old(self).remaining().last()
                && final(self).borrows() == old(self).borrows().drop_last()
                && final(self).remaining() == old(self).remaining().drop_last()),
    {
        if self.queue.len() > 0 {
            let r = self.queue.pop();
            proof {
                assert(crate::traverse::current_values(self.queue@) =~= old(
                    self,
                ).remaining().drop_last());
            }
            return r;
        }
        None
    }
}

/// Adds two lengths; the sum must fit in `usize`.
pub fn add(left: usize, right: usize) -> (r: usize)
    requires
        left + right <= usize::MAX,
    ensures
        r == left + right,
{
    left + right
}

} // verus!
