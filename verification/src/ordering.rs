//! The ordering engine: every list keeps its elements at positions
//! `0, 1, 2, ...` in list order.

use vstd::prelude::*;
use crate::todo::{count_done, positions_dense, renumbered, Todo};

verus! {

/// The sequence with the elements at `i` and `j` exchanged.
pub open spec fn swapped<T>(s: Seq<T>, i: int, j: int) -> Seq<T> {
    s.update(i, s[j]).update(j, s[i])
}

/// Exchanges the elements at `i` and `j`; does nothing when either index is
/// out of bounds.
pub fn exchange<T>(list: &mut Vec<T>, i: usize, j: usize)
    ensures
        i < old(list)@.len() && j < old(list)@.len() ==> final(list)@ == swapped(
            old(list)@,
            i as int,
            j as int,
        ),
        !(i < old(list)@.len() && j < old(list)@.len()) ==> final(list)@ == old(list)@,
{
    if i < list.len() && j < list.len() && i != j {
        let lo = if i < j { i } else { j };
        let hi = if i < j { j } else { i };
        let upper = list.remove(hi);
        let lower = list.remove(lo);
        list.insert(lo, upper);
        list.insert(hi, lower);
    }
}

/// Gives every element its index as position.
pub fn renumber(list: &mut Vec<Todo>)
    requires
        old(list)@.len() <= i64::MAX,
    ensures
        final(list)@ == renumbered(old(list)@),
{
    let mut i: usize = 0;
    while i < list.len()
        invariant
            i <= list.len(),
            list@.len() == old(list)@.len(),
            list@.len() <= i64::MAX,
            forall|k: int| 0 <= k < i ==> list@[k] == old(list)@[k].at_position(k),
            forall|k: int| i <= k < list@.len() ==> list@[k] == old(list)@[k],
        decreases list.len() - i,
    {
        list[i].position = i as i64;
        i += 1;
    }
}

/// Replacing one todo changes the count of completed todos by what the old
/// and the new todo contribute.
pub proof fn lemma_update_counts(s: Seq<Todo>, i: int, t: Todo)
    requires
        0 <= i < s.len(),
    ensures
        count_done(s.update(i, t)) == count_done(s) - (if s[i].completed {
            1int
        } else {
            0int
        }) + (if t.completed {
            1int
        } else {
            0int
        }),
    decreases s.len(),
{
    reveal(Seq::filter);
    if i == s.len() - 1 {
        assert(s.update(i, t).drop_last() =~= s.drop_last());
    } else {
        lemma_update_counts(s.drop_last(), i, t);
        assert(s.update(i, t).drop_last() =~= s.drop_last().update(i, t));
    }
}

/// Renumbering changes no completed flag, so it changes no count.
pub proof fn lemma_renumbered_counts(s: Seq<Todo>)
    requires
        s.len() <= i64::MAX,
    ensures
        count_done(renumbered(s)) == count_done(s),
        renumbered(s).len() == s.len(),
        positions_dense(renumbered(s)),
    decreases s.len(),
{
    reveal(Seq::filter);
    if s.len() > 0 {
        lemma_renumbered_counts(s.drop_last());
        assert(renumbered(s).drop_last() =~= renumbered(s.drop_last()));
    }
}

/// Exchanging two todos and renumbering the list changes no count and
/// leaves the positions dense.
pub proof fn lemma_reordered_counts(s: Seq<Todo>, i: int, j: int)
    requires
        0 <= i < s.len(),
        0 <= j < s.len(),
        s.len() <= i64::MAX,
    ensures
        count_done(renumbered(swapped(s, i, j))) == count_done(s),
        positions_dense(renumbered(swapped(s, i, j))),
{
    lemma_update_counts(s, i, s[j]);
    lemma_update_counts(s.update(i, s[j]), j, s[i]);
    lemma_renumbered_counts(swapped(s, i, j));
}

} // verus!
