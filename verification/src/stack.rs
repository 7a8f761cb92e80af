//! An unbounded LIFO stack.

use vstd::prelude::*;

verus! {

/// An unbounded last-in-first-out stack.
///
/// The view lists the elements from bottom to top: the last element of the
/// view is the top of the stack, the one that `pop` and `peek` reach.
pub struct Stack<T> {
    data: Vec<T>,
}

impl<T> View for Stack<T> {
    type V = Seq<T>;

    closed spec fn view(&self) -> Seq<T> {
        self.data@
    }
}

impl<T> Stack<T> {
    /// Creates an empty stack.
    pub fn new() -> (s: Stack<T>)
        ensures
            s@ == Seq::<T>::empty(),
    {
        Stack { data: Vec::new() }
    }

    /// Reports whether the stack holds no elements.
    pub fn is_empty(&self) -> (r: bool)
        ensures
            r <==> self@.len() == 0,
    {
        self.data.len() == 0
    }

    /// Reports how many elements the stack holds.
    pub fn len(&self) -> (r: usize)
        ensures
            r == self@.len(),
    {
        self.data.len()
    }

    /// Removes every element.
    pub fn clear(&mut self)
        ensures
            final(self)@ == Seq::<T>::empty(),
    {
        self.data = Vec::new();
    }

    /// Adds an element on top of the stack; never fails.
    pub fn push(&mut self, item: T)
        ensures
            final(self)@ == old(self)@.push(item),
    {
        self.data.push(item);
    }

    /// Removes and returns the top element, or `None` on an empty stack.
    pub fn pop(&mut self) -> (r: Option<T>)
        ensures
            old(self)@.len() == 0 ==> r is None && final(self)@ == old(self)@,
            old(self)@.len() > 0 ==> r == Some(old(self)@.last())
                && final(self)@ == old(self)@.drop_last(),
    {
        if self.is_empty() {
            return None;
        }
        self.data.pop()
    }

    /// Returns a borrow of the top element without removing it, or `None`
    /// on an empty stack.
    pub fn peek(&self) -> (r: Option<&T>)
        ensures
            self@.len() == 0 ==> r is None,
            self@.len() > 0 ==> (r matches Some(x) && *x == self@.last()),
    {
        if self.is_empty() {
            return None;
        }
        self.data.as_slice().last()
    }

    /// Hands the stack to a consuming iterator that drains it from the top
    /// down, i.e. in LIFO order.
    pub fn into_iter(self) -> (it: IntoIter<T>)
        ensures
            it.remaining() == self@,
    {
        IntoIter(self)
    }

    /// Returns a borrowing iterator that yields one borrow per element,
    /// from the top down, leaving the stack unchanged.
    pub fn iter(&self) -> (it: Iter<T>)
        ensures
            it.remaining() == self@,
    {
        Iter { stack: crate::traverse::collect_refs(&self.data) }
    }

    /// Returns a mutable-borrowing iterator that yields one mutable borrow
    /// per element, from the top down.  The stack keeps its length and
    /// finally holds, position by position, whatever is written through
    /// the borrows.
    pub fn iter_mut<'a>(&'a mut self) -> (it: IterMut<'a, T>)
        ensures
            it.remaining() == old(self)@,
            final(self)@.len() == old(self)@.len(),
            forall|i: int| 0 <= i < it.borrows().len() ==> final(self)@[i] == *final(
                #[trigger] it.borrows()[i]
            ),
    {
        let refs = crate::traverse::collect_mut_refs(self.data.as_mut_slice());
        IterMut { stack: refs }
    }

    /// Returns a mutable borrow of the top element without removing it, or
    /// `None` on an empty stack.  Writing through the borrow replaces the
    /// top element in place.
    pub fn peek_mut(&mut self) -> (r: Option<&mut T>)
        ensures
            old(self)@.len() == 0 ==> r is None && final(self)@ == old(self)@,
            old(self)@.len() > 0 ==> (r matches Some(x) && *x == old(self)@.last()
                && final(self)@ == old(self)@.update(old(self)@.len() - 1, *final(x))),
    {
        if self.is_empty() {
            return None;
        }
        self.data.as_mut_slice().last_mut()
    }
}

/// The sequence of elements that repeated `pop` returns until the stack
/// is empty, read off `pop`'s contract: each step takes the last element
/// of the view — the top — and drops it.
pub open spec fn removal_order<T>(s: Seq<T>) -> Seq<T>
    decreases s.len(),
{
    if s.len() == 0 {
        Seq::empty()
    } else {
        seq![s.last()] + removal_order(s.drop_last())
    }
}

/// Traversal-consistency law for a stack whose view is `s`: the consuming
/// iterator steps by the same last-then-drop contract as `pop`, and
/// `iter` and `iter_mut` hand out borrows of the same elements in the
/// same order, so every traversal yields `removal_order(s)` — the
/// elements from the top down, the reverse of push order.
pub proof fn lemma_traversal_order<T>(s: Seq<T>)
    ensures
        removal_order(s) == crate::traverse::drain_order(s),
        removal_order(s) == s.reverse(),
    decreases s.len(),
{
    crate::traverse::lemma_drain_order_is_reverse(s);
    if s.len() == 0 {
        assert(removal_order(s) =~= crate::traverse::drain_order(s));
    } else {
        lemma_traversal_order(s.drop_last());
        assert(removal_order(s) =~= crate::traverse::drain_order(s));
    }
}

/// A consuming iterator over a stack: it drains the stack, yielding the
/// remaining elements from the top down.
pub struct IntoIter<T>(Stack<T>);

impl<T> IntoIter<T> {
    /// The elements not yet yielded; `next` takes them from the end.
    pub closed spec fn remaining(&self) -> Seq<T> {
        self.0@
    }

    /// Removes and returns the top-most remaining element, or `None` once
    /// the stack is drained.
    pub fn next(&mut self) -> (r: Option<T>)
        ensures
            old(self).remaining().len() == 0 ==> r is None
                && final(self).remaining() == old(self).remaining(),
            old(self).remaining().len() > 0 ==> r == Some(old(self).remaining().last())
                && final(self).remaining() == old(self).remaining().drop_last(),
    {
        if self.0.data.len() > 0 {
            return self.0.data.pop();
        }
        None
    }
}

/// A borrowing iterator over a stack: it holds one borrow per element and
/// yields them from the top down.
pub struct Iter<'a, T> {
    stack: Vec<&'a T>,
}

impl<'a, T> Iter<'a, T> {
    /// The values still to be yielded; `next` takes them from the end.
    pub closed spec fn remaining(&self) -> Seq<T> {
        crate::traverse::ref_values(self.stack@)
    }

    /// Returns a borrow of the top-most remaining element, or `None` once
    /// every element was yielded.
    pub fn next(&mut self) -> (r: Option<&'a T>)
        ensures
            old(self).remaining().len() == 0 ==> r is None
                && final(self).remaining() == old(self).remaining(),
            old(self).remaining().len() > 0 ==> (r matches Some(x)
                && *x == old(self).remaining().last()
                && final(self).remaining() == old(self).remaining().drop_last()),
    {
        let r = self.stack.pop();
        proof {
            assert(crate::traverse::ref_values(self.stack@) =~= if old(
                self,
            ).remaining().len() == 0 {
                old(self).remaining()
            } else {
                old(self).remaining().drop_last()
            });
        }
        r
    }
}

/// A mutable-borrowing iterator over a stack: it holds one mutable borrow
/// per element and yields them from the top down.
pub struct IterMut<'a, T> {
    stack: Vec<&'a mut T>,
}

impl<'a, T> IterMut<'a, T> {
    /// The borrows still to be yielded, in storage order; `next` takes
    /// them from the end.
    pub closed spec fn borrows(&self) -> Seq<&'a mut T> {
        self.stack@
    }

    /// The values currently behind the borrows still to be yielded.
    pub open spec fn remaining(&self) -> Seq<T> {
        crate::traverse::current_values(self.borrows())
    }

    /// Returns a mutable borrow of the top-most remaining element, or
    /// `None` once every element was yielded.
    pub fn next(&mut self) -> (r: Option<&'a mut T>)
        ensures
            old(self).remaining().len() == 0 ==> r is None
                && final(self).borrows() == old(self).borrows(),
            old(self).remaining().len() > 0 ==> (r matches Some(x)
                && x == old(self).borrows().last()
                && *x == old(self).remaining().last()
                && final(self).borrows() == old(self).borrows().drop_last()
                && final(self).remaining() == old(self).remaining().drop_last()),
    {
        let r = self.stack.pop();
        proof {
            assert(crate::traverse::current_values(self.stack@) =~= if old(
                self,
            ).remaining().len() == 0 {
                old(self).remaining()
            } else {
                old(self).remaining().drop_last()
            });
        }
        r
    }
}

} // verus!
