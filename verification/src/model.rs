//! The editing model: the byte buffer, the caret and the undo history.
//!
//! Only the model mutates the buffer, through the half-open range splice
//! `edit`; every mutation keeps the caret's bound consistent with the
//! buffer length for the caret's current variant.

use crate::history::History;
use crate::{Caret, UsizeMax};
use vstd::prelude::*;
use vstd::string::StringExecFns;

verus! {

/// The largest on-byte position of a buffer of length `len`: one less,
/// saturating to zero on an empty buffer.
pub open spec fn top_offset(len: nat) -> nat {
    if len == 0 {
        0
    } else {
        (len - 1) as nat
    }
}

/// The counter `i` after `set_maximum(m)`: the bound replaced, the value
/// reclamped.
pub open spec fn clamp_to(i: UsizeMax, m: nat) -> UsizeMax {
    UsizeMax { value: vstd::math::min(i.value as int, m as int) as usize, max: m as usize }
}

/// Whether the caret's bound matches a buffer of length `len` for the
/// caret's variant: an insertion point may reach `len`, an on-byte point
/// only `len - 1`.
pub open spec fn caret_fits(c: Caret, len: nat) -> bool {
    match c {
        // An insertion bound of one survives on an empty buffer: entering
        // Insert mode grants the slot past the last byte even there.
        Caret::Index(i) => i.wf() && (i.max == len || (len == 0 && i.max == 1)),
        Caret::Offset(i) => i.wf() && i.max == top_offset(len),
        Caret::Replace(i) => i.wf() && i.max == top_offset(len),
        Caret::Visual(s, e) => s.wf() && e.wf() && s.max == top_offset(len) && e.max
            == top_offset(len),
    }
}

/// The caret after its bounds are re-clamped to a buffer of length `len`,
/// without changing the variant.
pub open spec fn rebound(c: Caret, len: nat) -> Caret {
    match c {
        Caret::Index(i) => Caret::Index(clamp_to(i, len)),
        Caret::Offset(i) => Caret::Offset(clamp_to(i, top_offset(len))),
        Caret::Replace(i) => Caret::Replace(clamp_to(i, top_offset(len))),
        Caret::Visual(s, e) => Caret::Visual(clamp_to(s, top_offset(len)), clamp_to(e, top_offset(len))),
    }
}

/// The representative position of the caret: its single counter, or the
/// active (second) endpoint of a selection, read clamped.
pub open spec fn active_value(c: Caret) -> usize {
    match c {
        Caret::Index(i) => vstd::math::min(i.value as int, i.max as int) as usize,
        Caret::Offset(i) => vstd::math::min(i.value as int, i.max as int) as usize,
        Caret::Replace(i) => vstd::math::min(i.value as int, i.max as int) as usize,
        Caret::Visual(_, e) => vstd::math::min(e.value as int, e.max as int) as usize,
    }
}

/// The caret with its representative counter set to `v` (reclamped).
pub open spec fn with_active_set(c: Caret, v: usize) -> Caret {
    match c {
        Caret::Index(i) => Caret::Index(
            UsizeMax { value: vstd::math::min(v as int, i.max as int) as usize, max: i.max },
        ),
        Caret::Offset(i) => Caret::Offset(
            UsizeMax { value: vstd::math::min(v as int, i.max as int) as usize, max: i.max },
        ),
        Caret::Replace(i) => Caret::Replace(
            UsizeMax { value: vstd::math::min(v as int, i.max as int) as usize, max: i.max },
        ),
        Caret::Visual(s, e) => Caret::Visual(
            s,
            UsizeMax { value: vstd::math::min(v as int, e.max as int) as usize, max: e.max },
        ),
    }
}

/// The counter after a saturating, clamped addition of `n`.
pub open spec fn counter_up(i: UsizeMax, n: usize) -> UsizeMax {
    UsizeMax { value: vstd::math::min(i.value + n, i.max as int) as usize, max: i.max }
}

/// The counter after a saturating, clamped subtraction of `n`.
pub open spec fn counter_down(i: UsizeMax, n: usize) -> UsizeMax {
    UsizeMax {
        value: vstd::math::min(
            vstd::math::max(i.value - n, 0),
            i.max as int,
        ) as usize,
        max: i.max,
    }
}

/// The caret with its representative counter moved up by `n`.
pub open spec fn with_active_up(c: Caret, n: usize) -> Caret {
    match c {
        Caret::Index(i) => Caret::Index(counter_up(i, n)),
        Caret::Offset(i) => Caret::Offset(counter_up(i, n)),
        Caret::Replace(i) => Caret::Replace(counter_up(i, n)),
        Caret::Visual(s, e) => Caret::Visual(s, counter_up(e, n)),
    }
}

/// The caret with its representative counter moved down by `n`.
pub open spec fn with_active_down(c: Caret, n: usize) -> Caret {
    match c {
        Caret::Index(i) => Caret::Index(counter_down(i, n)),
        Caret::Offset(i) => Caret::Offset(counter_down(i, n)),
        Caret::Replace(i) => Caret::Replace(counter_down(i, n)),
        Caret::Visual(s, e) => Caret::Visual(s, counter_down(e, n)),
    }
}

/// Clones a byte vector; the copy holds the same bytes.
pub fn clone_bytes(v: &Vec<u8>) -> (ret: Vec<u8>)
    ensures
        ret@ == v@,
{
    let ret = v.clone();
    proof {
        assert forall|i: int| 0 <= i < v@.len() implies ret@[i] == v@[i] by {
            assert(cloned::<u8>(v@[i], ret@[i]));
        }
        assert(ret@ =~= v@);
    }
    ret
}

#[derive(Debug)]
pub struct Model {
    pub path: String,
    pub caret: Caret,
    pub buffer: Vec<u8>,
    pub term_size: (u16, u16),
    pub history: History<(Vec<u8>, Caret)>,
}

impl Model {
    /// Every snapshot's caret bound matches that snapshot's buffer, and
    /// every snapshot's buffer is one a machine can hold.
    pub open spec fn hist_fits(self) -> bool {
        &&& forall|i: int|
            0 <= i < self.history.done_states().len() ==> caret_fits(
                (#[trigger] self.history.done_states()[i]).1,
                self.history.done_states()[i].0@.len(),
            ) && self.history.done_states()[i].0@.len() <= usize::MAX
        &&& forall|i: int|
            0 <= i < self.history.recall_states().len() ==> caret_fits(
                (#[trigger] self.history.recall_states()[i]).1,
                self.history.recall_states()[i].0@.len(),
            ) && self.history.recall_states()[i].0@.len() <= usize::MAX
    }

    /// Well-formedness: the caret fits the buffer, the buffer is one a
    /// machine can hold, and every recorded snapshot fits likewise.
    pub open spec fn wf(self) -> bool {
        &&& caret_fits(self.caret, self.buffer@.len())
        &&& self.buffer@.len() <= usize::MAX
        &&& self.hist_fits()
    }

    pub fn new() -> (ret: Model)
        ensures
            ret.path@ == Seq::<char>::empty(),
            ret.caret == Caret::Offset(UsizeMax { value: 0usize, max: 0usize }),
            ret.buffer@ == Seq::<u8>::empty(),
            ret.term_size == (16u16, 16u16),
            ret.history.done_states().len() == 0,
            ret.history.recall_states().len() == 0,
            ret.wf(),
    {
        Model {
            path: String::new(),
            caret: Caret::Offset(UsizeMax::new(0, 0)),
            buffer: Vec::new(),
            term_size: (16, 16),
            history: History::new(),
        }
    }

    /// Adopts the given bytes as the buffer's content, places the caret
    /// on the first byte, and restarts the history with one snapshot of
    /// this state.
    pub fn open(&mut self, path: String, bytes: Vec<u8>)
        ensures
            final(self).path@ == path@,
            final(self).buffer@ == bytes@,
            final(self).caret == Caret::Offset(
                UsizeMax { value: 0usize, max: top_offset(bytes@.len()) as usize },
            ),
            final(self).term_size == old(self).term_size,
            final(self).history.done_states().len() == 1,
            final(self).history.done_states()[0].0@ == bytes@,
            final(self).history.done_states()[0].1 == final(self).caret,
            final(self).history.recall_states().len() == 0,
            final(self).wf(),
    {
        self.path = path;
        self.buffer = bytes;
        let len = self.buffer.len();
        let bound = if len == 0 {
            0
        } else {
            len - 1
        };
        self.caret = Caret::Offset(UsizeMax::new(0, bound));
        let copy = clone_bytes(&self.buffer);
        self.history.init((copy, self.caret));
    }

    /// Whether the buffer differs from the given on-disk content.
    pub fn is_modified(&self, disc_content: &Vec<u8>) -> (ret: bool)
        ensures
            ret == (self.buffer@ != disc_content@),
    {
        let same = self.buffer == *disc_content;
        proof {
            if same {
                assert(self.buffer@ =~= disc_content@);
            }
        }
        !same
    }

    /// Moves the representative position to `new_index`, clamped.
    pub fn set_index(&mut self, new_index: usize)
        ensures
            final(self).caret == with_active_set(old(self).caret, new_index),
            final(self).buffer@ == old(self).buffer@,
            final(self).path@ == old(self).path@,
            final(self).term_size == old(self).term_size,
            final(self).history == old(self).history,
            old(self).wf() ==> final(self).wf(),
    {
        match &mut self.caret {
            Caret::Index(index) => index.set_value(new_index),
            Caret::Offset(index) => index.set_value(new_index),
            Caret::Replace(index) => index.set_value(new_index),
            Caret::Visual(_, index) => index.set_value(new_index),
        }
    }

    /// Reads the representative position.
    pub fn get_index(&self) -> (ret: usize)
        ensures
            ret == active_value(self.caret),
    {
        match &self.caret {
            Caret::Index(index) => index.get_clamped(),
            Caret::Offset(index) => index.get_clamped(),
            Caret::Replace(index) => index.get_clamped(),
            Caret::Visual(_, index) => index.get_clamped(),
        }
    }

    /// Moves the representative position up by `value`, saturating.
    pub fn inc_index(&mut self, value: usize)
        ensures
            final(self).caret == with_active_up(old(self).caret, value),
            final(self).buffer@ == old(self).buffer@,
            final(self).path@ == old(self).path@,
            final(self).term_size == old(self).term_size,
            final(self).history == old(self).history,
            old(self).wf() ==> final(self).wf(),
    {
        match &mut self.caret {
            Caret::Index(index) => index.add_assign(value),
            Caret::Offset(index) => index.add_assign(value),
            Caret::Replace(index) => index.add_assign(value),
            Caret::Visual(_, index) => index.add_assign(value),
        }
    }

    /// Moves the representative position down by `value`, saturating.
    pub fn dec_index(&mut self, value: usize)
        ensures
            final(self).caret == with_active_down(old(self).caret, value),
            final(self).buffer@ == old(self).buffer@,
            final(self).path@ == old(self).path@,
            final(self).term_size == old(self).term_size,
            final(self).history == old(self).history,
            old(self).wf() ==> final(self).wf(),
    {
        match &mut self.caret {
            Caret::Index(index) => index.sub_assign(value),
            Caret::Offset(index) => index.sub_assign(value),
            Caret::Replace(index) => index.sub_assign(value),
            Caret::Visual(_, index) => index.sub_assign(value),
        }
    }

    /// Records the current buffer and caret; pending redo states are
    /// discarded.
    pub fn snapshot(&mut self)
        ensures
            ({
                let d0 = old(self).history.done_states();
                let d1 = final(self).history.done_states();
                &&& d1.len() == d0.len() + 1
                &&& d1.subrange(0, d0.len() as int) == d0
                &&& d1.last().0@ == old(self).buffer@
                &&& d1.last().1 == old(self).caret
            }),
            final(self).history.recall_states().len() == 0,
            final(self).buffer@ == old(self).buffer@,
            final(self).caret == old(self).caret,
            final(self).path@ == old(self).path@,
            final(self).term_size == old(self).term_size,
            old(self).wf() ==> final(self).wf(),
    {
        let copy = clone_bytes(&self.buffer);
        self.history.snapshot((copy, self.caret));
        proof {
            let d0 = old(self).history.done_states();
            let d1 = self.history.done_states();
            assert(d1.subrange(0, d0.len() as int) =~= d0);
        }
    }

    /// Steps the model back to the previous snapshot; reports whether
    /// anything was undone.
    pub fn undo(&mut self) -> (ret: bool)
        ensures
            ({
                let d0 = old(self).history.done_states();
                if d0.len() <= 1 {
                    &&& !ret
                    &&& final(self).buffer@ == old(self).buffer@
                    &&& final(self).caret == old(self).caret
                    &&& final(self).history.done_states() == d0
                    &&& final(self).history.recall_states() == old(self).history.recall_states()
                } else {
                    &&& ret
                    &&& final(self).history.done_states() == d0.drop_last()
                    &&& final(self).history.recall_states() == old(
                        self,
                    ).history.recall_states().push(d0.last())
                    &&& final(self).buffer@ == d0[d0.len() - 2].0@
                    &&& final(self).caret == d0[d0.len() - 2].1
                }
            }),
            final(self).path@ == old(self).path@,
            final(self).term_size == old(self).term_size,
            old(self).wf() ==> final(self).wf(),
    {
        let (buffer, caret) = match self.history.undo() {
            Some(snap) => (clone_bytes(&snap.0), snap.1),
            None => {
                return false;
            },
        };
        self.buffer = buffer;
        self.caret = caret;
        true
    }

    /// Steps the model forward to the next snapshot; reports whether
    /// anything was redone.
    pub fn redo(&mut self) -> (ret: bool)
        ensures
            ({
                let r0 = old(self).history.recall_states();
                if r0.len() == 0 {
                    &&& !ret
                    &&& final(self).buffer@ == old(self).buffer@
                    &&& final(self).caret == old(self).caret
                    &&& final(self).history.done_states() == old(self).history.done_states()
                    &&& final(self).history.recall_states() == r0
                } else {
                    &&& ret
                    &&& final(self).history.done_states() == old(self).history.done_states().push(
                        r0.last(),
                    )
                    &&& final(self).history.recall_states() == r0.drop_last()
                    &&& final(self).buffer@ == r0.last().0@
                    &&& final(self).caret == r0.last().1
                }
            }),
            final(self).path@ == old(self).path@,
            final(self).term_size == old(self).term_size,
            old(self).wf() ==> final(self).wf(),
    {
        let (buffer, caret) = match self.history.redo() {
            Some(snap) => (clone_bytes(&snap.0), snap.1),
            None => {
                return false;
            },
        };
        self.buffer = buffer;
        self.caret = caret;
        true
    }

    /// Replaces the half-open range `start..end` (normalized so that the
    /// lower bound comes first) with `new`, then re-clamps the caret's
    /// bounds to the new buffer length.  Fails, leaving everything
    /// unchanged, exactly when the range reaches past the end of the
    /// buffer.
    pub fn edit(&mut self, start: usize, end: usize, new: &[u8]) -> (ret: Result<(), String>)
        ensures
            ({
                let lo = vstd::math::min(start as int, end as int);
                let hi = vstd::math::max(start as int, end as int);
                let len = old(self).buffer@.len() as int;
                if hi <= len {
                    &&& ret is Ok
                    &&& final(self).buffer@ == old(self).buffer@.subrange(0, lo) + new@ + old(
                        self,
                    ).buffer@.subrange(hi, len)
                    &&& final(self).buffer@.len() == len - (hi - lo) + new@.len()
                    &&& final(self).caret == rebound(old(self).caret, final(self).buffer@.len())
                } else {
                    &&& ret matches Err(m) && m@ == "no data to edit"@
                    &&& final(self).buffer@ == old(self).buffer@
                    &&& final(self).caret == old(self).caret
                }
            }),
            final(self).history == old(self).history,
            final(self).path@ == old(self).path@,
            final(self).term_size == old(self).term_size,
            old(self).wf() ==> final(self).wf(),
    {
        let (lo, hi) = if start > end {
            (end, start)
        } else {
            (start, end)
        };

        if hi > self.buffer.len() {
            return Err(String::from_str("no data to edit"));
        }

        let ghost orig = self.buffer@;
        let len = self.buffer.len();
        let mut spliced: Vec<u8> = Vec::new();
        let mut i: usize = 0;
        while i < lo
            invariant
                i <= lo <= hi <= len == self.buffer@.len(),
                self.buffer@ == orig,
                spliced@ == orig.subrange(0, i as int),
            decreases lo - i,
        {
            spliced.push(self.buffer[i]);
            proof {
                assert(spliced@ =~= orig.subrange(0, i + 1));
            }
            i = i + 1;
        }
        let mut j: usize = 0;
        while j < new.len()
            invariant
                lo <= hi <= len == self.buffer@.len(),
                j <= new@.len(),
                self.buffer@ == orig,
                spliced@ == orig.subrange(0, lo as int) + new@.subrange(0, j as int),
            decreases new@.len() - j,
        {
            spliced.push(new[j]);
            proof {
                assert(spliced@ =~= orig.subrange(0, lo as int) + new@.subrange(0, j + 1));
            }
            j = j + 1;
        }
        let mut k: usize = hi;
        while k < len
            invariant
                lo <= hi <= k <= len == self.buffer@.len(),
                self.buffer@ == orig,
                spliced@ == orig.subrange(0, lo as int) + new@ + orig.subrange(hi as int, k as int),
            decreases len - k,
        {
            spliced.push(self.buffer[k]);
            proof {
                assert(spliced@ =~= orig.subrange(0, lo as int) + new@ + orig.subrange(
                    hi as int,
                    k + 1,
                ));
            }
            k = k + 1;
        }
        proof {
            assert(new@.subrange(0, new@.len() as int) =~= new@);
            assert(orig.subrange(hi as int, hi as int) =~= Seq::<u8>::empty());
        }
        self.buffer = spliced;

        let new_len = self.buffer.len();
        let bound = if new_len == 0 {
            0
        } else {
            new_len - 1
        };
        match &mut self.caret {
            Caret::Index(index) => index.set_maximum(new_len),
            Caret::Offset(index) => index.set_maximum(bound),
            Caret::Replace(index) => index.set_maximum(bound),
            Caret::Visual(sel_start, _) => sel_start.set_maximum(bound),
        }
        if let Caret::Visual(_, sel_end) = &mut self.caret {
            sel_end.set_maximum(bound);
        }

        Ok(())
    }
}

} // verus!
