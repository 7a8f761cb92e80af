//! Helpers shared by the containers' borrowing iterators.
//!
//! Each container snapshots one borrow per element, in storage order, and
//! its iterators then pop those borrows from the end.  The spec functions
//! here relate such a sequence of borrows to the values behind them.

use vstd::prelude::*;

verus! {

/// The values behind a sequence of borrows, in the same order.
pub open spec fn ref_values<T>(s: Seq<&T>) -> Seq<T> {
    s.map_values(|r: &T| *r)
}

/// The values currently behind a sequence of mutable borrows.
pub open spec fn current_values<T>(s: Seq<&mut T>) -> Seq<T> {
    s.map_values(|r: &mut T| *r)
}

/// The order in which a traversal that repeatedly takes the last element
/// of a sequence hands the elements out.  Every removal operation and
/// every iterator of the containers steps this way.
pub open spec fn drain_order<T>(s: Seq<T>) -> Seq<T>
    decreases s.len(),
{
    if s.len() == 0 {
        Seq::empty()
    } else {
        seq![s.last()] + drain_order(s.drop_last())
    }
}

/// Draining from the end hands the elements out in reverse storage order.
pub proof fn lemma_drain_order_is_reverse<T>(s: Seq<T>)
    ensures
        drain_order(s) == s.reverse(),
    decreases s.len(),
{
    if s.len() == 0 {
        assert(drain_order(s) =~= s.reverse());
    } else {
        lemma_drain_order_is_reverse(s.drop_last());
        assert(drain_order(s) =~= s.reverse());
    }
}

/// Collects a borrow of every element of `v`, in storage order.
pub fn collect_refs<'a, T>(v: &'a Vec<T>) -> (refs: Vec<&'a T>)
    ensures
        ref_values(refs@) == v@,
{
    let mut refs: Vec<&'a T> = Vec::with_capacity(v.len());
    let mut i: usize = 0;
    while i < v.len()
        invariant
            i <= v@.len(),
            refs@.len() == i,
            forall|j: int| 0 <= j < i ==> *(#[trigger] refs@[j]) == v@[j],
        decreases v@.len() - i,
    {
        refs.push(&v[i]);
        i += 1;
    }
    proof {
        assert(ref_values(refs@) =~= v@);
    }
    refs
}

/// Collects a mutable borrow of every element of `s`, in storage order.
/// The slice finally holds, element by element, whatever is written
/// through the borrows.
pub fn collect_mut_refs<'a, T>(s: &'a mut [T]) -> (refs: Vec<&'a mut T>)
    ensures
        current_values(refs@) == old(s)@,
        final(s)@.len() == refs@.len(),
        forall|i: int| 0 <= i < refs@.len() ==> final(s)@[i] == *final(refs@[i]),
    decreases old(s)@.len(),
{
    if s.len() == 0 {
        let refs: Vec<&'a mut T> = Vec::new();
        proof {
            assert(current_values(refs@) =~= old(s)@);
        }
        refs
    } else {
        let n = s.len() - 1;
        let (init, last_part) = s.split_at_mut(n);
        let last = last_part.first_mut().unwrap();
        let mut refs = collect_mut_refs(init);
        let ghost prev: Seq<&'a mut T> = refs@;
        refs.push(last);
        proof {
            assert forall|j: int| 0 <= j < refs@.len() implies *(
            #[trigger] refs@[j]) == old(s)@[j] by {
                if j < prev.len() {
                    assert(current_values(prev)[j] == *prev[j]);
                }
            }
            assert(current_values(refs@) =~= old(s)@);
        }
        refs
    }
}

} // verus!
