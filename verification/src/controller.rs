//! The modal controller: messages, movement directions and the
//! top-level key-dispatch state machine.
//!
//! The controller owns the model, the viewport, the yank register and
//! the status line contents.  Work that only the surrounding
//! application can do — writing a file, reading the disk for the
//! modified check, talking to the clipboard, drawing — is handed back
//! as an [`Action`]; the application performs it and reports the result
//! through the matching follow-up method.

use crate::model::{
    active_value, rebound, with_active_down, with_active_set, with_active_up, Model,
};
use crate::utils::{pop_char, push_char};
use crate::view::Viewport;
use crate::vim::{InputMode, InputState, InputStateMachine, Key, VimState};
use crate::{Caret, UsizeMax};
use vstd::prelude::*;
use vstd::string::StringExecFns;

verus! {

/// A message to the controller: one fully-decoded user intention.
#[derive(Debug)]
pub enum Msg {
    Byte(u8),
    Move(Direction),
    Quit,
    QuitWithoutSaving,
    Save,
    SaveAs(String),
    SaveAndQuit,
    Switch(Option<InputMode>),
    Delete(Option<Movement>),
    ToNormal,
    ToInsert(Option<usize>),
    ToAppend(Option<usize>),
    ToReplace,
    ToVisual,
    ToCommand,
    ClipboardCopy,
    ClipboardPaste,
    Yank,
    Paste(Option<Movement>),
    Undo,
    Redo,
    Show(String),
    Redraw,
    Resize((u16, u16)),
}

/// Which side of the cursor an operation works on.
#[derive(Clone, Copy, Debug, PartialEq, Eq, Structural)]
pub enum Movement {
    Left,
    Right,
}

/// A cursor movement.
#[derive(Clone, Copy, Debug, PartialEq, Eq, Structural)]
pub enum Direction {
    Left,
    Right,
    Up,
    Down,
    Offset(usize),
    Newline,
    Revert,
}

/// What the surrounding application must do next: carry on, stop the
/// event loop, or perform one piece of outside work and report back.
#[derive(Debug)]
pub enum Action {
    Continue,
    Stop,
    SaveFile { path: String, and_quit: bool },
    QueryDisk,
    CopyToClipboard(Vec<u8>),
    PasteFromClipboard,
    Redraw,
}

/// The direction a movement key denotes, if any.
pub open spec fn direction_of_key(key: Key) -> Option<Direction> {
    match key {
        Key::Left => Some(Direction::Left),
        Key::Right => Some(Direction::Right),
        Key::Up => Some(Direction::Up),
        Key::Down => Some(Direction::Down),
        Key::Char(c) => if c == 'h' {
            Some(Direction::Left)
        } else if c == 'l' {
            Some(Direction::Right)
        } else if c == 'k' {
            Some(Direction::Up)
        } else if c == 'j' {
            Some(Direction::Down)
        } else {
            None
        },
        _ => None,
    }
}

impl Direction {
    /// Decodes the arrow and `hjkl` keys; every other key is refused.
    pub fn try_from(value: Key) -> (ret: Result<Direction, &'static str>)
        ensures
            match direction_of_key(value) {
                Some(d) => ret == Ok::<Direction, &'static str>(d),
                None => ret is Err,
            },
    {
        match value {
            Key::Left => Ok(Direction::Left),
            Key::Right => Ok(Direction::Right),
            Key::Up => Ok(Direction::Up),
            Key::Down => Ok(Direction::Down),
            Key::Char(c) => {
                if c == 'h' {
                    Ok(Direction::Left)
                } else if c == 'l' {
                    Ok(Direction::Right)
                } else if c == 'k' {
                    Ok(Direction::Up)
                } else if c == 'j' {
                    Ok(Direction::Down)
                } else {
                    Err("this key does not denote a direction")
                }
            },
            _ => Err("this key does not denote a direction"),
        }
    }
}

/// One less, saturating at zero.
pub open spec fn sat_dec(n: usize) -> usize {
    if n == 0 {
        0
    } else {
        (n - 1) as usize
    }
}

/// One more, saturating at the machine maximum.
pub open spec fn sat_inc(n: usize) -> usize {
    if n == usize::MAX {
        n
    } else {
        (n + 1) as usize
    }
}

/// The caret after switching to Normal: an insertion cursor steps back
/// onto the byte before it, an on-byte cursor is carried over, a
/// selection collapses to its active endpoint.
pub open spec fn caret_to_normal(c: Caret) -> Caret {
    match c {
        Caret::Index(i) => Caret::Offset(
            UsizeMax {
                value: vstd::math::min(sat_dec(i.value) as int, sat_dec(i.max) as int) as usize,
                max: sat_dec(i.max),
            },
        ),
        Caret::Offset(i) => Caret::Offset(i),
        Caret::Replace(i) => Caret::Offset(i),
        Caret::Visual(_, i) => Caret::Offset(i),
    }
}

/// The caret after switching to Insert: the bound gains the one slot
/// past the last byte.
pub open spec fn caret_to_insert(c: Caret) -> Caret {
    match c {
        Caret::Index(i) => Caret::Index(i),
        Caret::Offset(i) => Caret::Index(
            UsizeMax {
                value: vstd::math::min(i.value as int, sat_inc(i.max) as int) as usize,
                max: sat_inc(i.max),
            },
        ),
        Caret::Replace(i) => Caret::Index(
            UsizeMax {
                value: vstd::math::min(i.value as int, sat_inc(i.max) as int) as usize,
                max: sat_inc(i.max),
            },
        ),
        Caret::Visual(_, i) => Caret::Index(
            UsizeMax {
                value: vstd::math::min(i.value as int, sat_inc(i.max) as int) as usize,
                max: sat_inc(i.max),
            },
        ),
    }
}

/// The caret after switching to Replace: an insertion cursor loses its
/// extra slot, on-byte cursors are carried over.
pub open spec fn caret_to_replace(c: Caret) -> Caret {
    match c {
        Caret::Index(i) => Caret::Replace(
            UsizeMax {
                value: vstd::math::min(i.value as int, sat_dec(i.max) as int) as usize,
                max: sat_dec(i.max),
            },
        ),
        Caret::Offset(i) => Caret::Replace(i),
        Caret::Replace(i) => Caret::Replace(i),
        Caret::Visual(_, i) => Caret::Replace(i),
    }
}

/// The caret after switching to Visual: a selection of one byte at the
/// cursor; an existing selection is kept as it is.
pub open spec fn caret_to_visual(c: Caret) -> Caret {
    match c {
        Caret::Index(i) => {
            let p = UsizeMax {
                value: vstd::math::min(i.value as int, sat_dec(i.max) as int) as usize,
                max: sat_dec(i.max),
            };
            Caret::Visual(p, p)
        },
        Caret::Offset(i) => Caret::Visual(i, i),
        Caret::Replace(i) => Caret::Visual(i, i),
        Caret::Visual(s, e) => Caret::Visual(s, e),
    }
}

/// Switching to Visual twice is the same as switching once: the second
/// switch keeps the selection.
pub proof fn lemma_to_visual_idempotent(c: Caret)
    ensures
        caret_to_visual(caret_to_visual(c)) == caret_to_visual(c),
{
}

/// The name of an input mode, as the status line shows it.
pub open spec fn mode_name(mode: InputMode) -> Seq<char> {
    match mode {
        InputMode::Hex => "Hex"@,
        InputMode::Ascii => "Ascii"@,
    }
}

fn mode_label(mode: InputMode) -> (ret: &'static str)
    ensures
        ret@ == mode_name(mode),
{
    match mode {
        InputMode::Hex => "Hex",
        InputMode::Ascii => "Ascii",
    }
}


/// The status banner for a mode switch: the mode word with the entry
/// mode in parentheses.
pub open spec fn banner(kind: Seq<char>, mode: InputMode) -> Seq<char> {
    "-- "@ + kind + " ("@ + mode_name(mode) + ") --"@
}

fn make_banner(kind: &'static str, mode: InputMode) -> (ret: String)
    ensures
        ret@ == banner(kind@, mode),
{
    String::from_str("-- ").concat(kind).concat(" (").concat(mode_label(mode)).concat(") --")
}

/// The caret after one movement command.
pub open spec fn moved_caret(c: Caret, dir: Direction) -> Caret {
    match dir {
        Direction::Left => with_active_down(c, 1),
        Direction::Right => with_active_up(c, 1),
        Direction::Up => with_active_down(c, 16),
        Direction::Down => with_active_up(c, 16),
        Direction::Offset(o) => with_active_set(c, o),
        Direction::Newline => {
            let c1 = with_active_up(c, 16);
            let i = active_value(c1);
            with_active_set(c1, ((i as int) - (i as int) % 16) as usize)
        },
        Direction::Revert => match c {
            Caret::Visual(s, e) => Caret::Visual(e, s),
            _ => c,
        },
    }
}

/// The modal controller.
pub struct Controller {
    pub state: VimState,
    pub model: Model,
    pub viewport: Viewport,
    pub mode: InputMode,
    pub yank: Option<Vec<u8>>,
    pub status_head: String,
    pub status_body: String,
    pub status_index: usize,
}

impl Controller {
    /// Well-formedness: the model's caret bounds fit its buffer, the
    /// viewport shows at least a row, and any embedded entry machine
    /// holds only validated characters.
    pub open spec fn wf(self) -> bool {
        &&& self.model.wf()
        &&& self.viewport.wf()
        &&& match self.state {
            VimState::Insert(m) => m.wf(),
            VimState::Replace(m, _) => m.wf(),
            _ => true,
        }
    }

    pub fn new(model: Model) -> (ret: Controller)
        requires
            model.wf(),
        ensures
            ret.state == VimState::Normal,
            ret.model == model,
            ret.viewport == (Viewport { scroll_start: 0usize, height: 13usize }),
            ret.mode == InputMode::Hex,
            ret.yank is None,
            ret.status_head@ == Seq::<char>::empty(),
            ret.status_body@ == Seq::<char>::empty(),
            ret.status_index == 0,
            ret.wf(),
    {
        Controller {
            state: VimState::Normal,
            model,
            viewport: Viewport::new(),
            mode: InputMode::Hex,
            yank: None,
            status_head: String::new(),
            status_body: String::new(),
            status_index: 0,
        }
    }

    /// Adopts freshly-read file content and shows the path in the
    /// status head.
    pub fn open(&mut self, path: String, bytes: Vec<u8>)
        requires
            old(self).wf(),
        ensures
            final(self).model.buffer@ == bytes@,
            final(self).model.path@ == path@,
            final(self).status_head@ == path@,
            final(self).state == old(self).state,
            final(self).mode == old(self).mode,
            final(self).wf(),
    {
        let head = path.clone();
        self.model.open(path, bytes);
        self.status_head = head;
    }

    /// Inserts `value` at the cursor and steps the cursor past it; on
    /// an insertion point beyond the end of the buffer the edit is
    /// refused and reported instead.
    pub fn insert(&mut self, value: u8)
        requires
            old(self).wf(),
        ensures
            ({
                let i = active_value(old(self).model.caret) as int;
                let len = old(self).model.buffer@.len() as int;
                let edited = if i <= len {
                    old(self).model.buffer@.insert(i, value)
                } else {
                    old(self).model.buffer@
                };
                let rebounded = if i <= len {
                    rebound(old(self).model.caret, edited.len())
                } else {
                    old(self).model.caret
                };
                &&& final(self).model.buffer@ == edited
                &&& final(self).model.caret == with_active_up(rebounded, 1)
                &&& (i > len ==> final(self).status_body@ == "could not insert value (no data to edit)"@)
                &&& (i <= len ==> final(self).status_body@ == old(self).status_body@)
            }),
            final(self).model.history == old(self).model.history,
            final(self).model.path@ == old(self).model.path@,
            final(self).state == old(self).state,
            final(self).mode == old(self).mode,
            final(self).yank == old(self).yank,
            final(self).viewport == old(self).viewport,
            final(self).status_head@ == old(self).status_head@,
            final(self).wf(),
    {
        let index = self.model.get_index();
        let mut one: Vec<u8> = Vec::new();
        one.push(value);
        let ghost pre = self.model.buffer@;
        match self.model.edit(index, index, one.as_slice()) {
            Ok(_) => {
                proof {
                    assert(pre.subrange(0, index as int) + one@ + pre.subrange(
                        index as int,
                        pre.len() as int,
                    ) =~= pre.insert(index as int, value));
                }
            },
            Err(e) => {
                self.status_body = String::from_str("could not insert value (").concat(
                    e.as_str(),
                ).concat(")");
                proof {
                    reveal_strlit("could not insert value (");
                    reveal_strlit("no data to edit");
                    reveal_strlit(")");
                    reveal_strlit("could not insert value (no data to edit)");
                    assert(self.status_body@ =~= "could not insert value (no data to edit)"@);
                }
            },
        }
        self.model.inc_index(1);
    }

    /// Overwrites the byte at the cursor; on an empty buffer the edit
    /// is refused and reported instead.
    pub fn replace(&mut self, value: u8)
        requires
            old(self).wf(),
        ensures
            ({
                let i = active_value(old(self).model.caret) as int;
                let len = old(self).model.buffer@.len() as int;
                if i < len {
                    &&& final(self).model.buffer@ == old(self).model.buffer@.update(i, value)
                    &&& final(self).model.caret == rebound(
                        old(self).model.caret,
                        old(self).model.buffer@.len(),
                    )
                    &&& final(self).status_body@ == old(self).status_body@
                } else {
                    &&& final(self).model.buffer@ == old(self).model.buffer@
                    &&& final(self).model.caret == old(self).model.caret
                    &&& final(self).status_body@ == "could not replace value (no data to edit)"@
                }
            }),
            final(self).model.history == old(self).model.history,
            final(self).model.path@ == old(self).model.path@,
            final(self).state == old(self).state,
            final(self).mode == old(self).mode,
            final(self).yank == old(self).yank,
            final(self).viewport == old(self).viewport,
            final(self).status_head@ == old(self).status_head@,
            final(self).wf(),
    {
        let len = self.model.buffer.len();
        let index = self.model.get_index();
        if index == usize::MAX {
            proof {
                assert(index as int >= len as int);
            }
            self.status_body = String::from_str("could not replace value (no data to edit)");
            return;
        }
        let top = index + 1;
        let mut one: Vec<u8> = Vec::new();
        one.push(value);
        let ghost pre = self.model.buffer@;
        match self.model.edit(index, top, one.as_slice()) {
            Ok(_) => {
                proof {
                    assert(pre.subrange(0, index as int) + one@ + pre.subrange(
                        index + 1,
                        pre.len() as int,
                    ) =~= pre.update(index as int, value));
                }
            },
            Err(e) => {
                self.status_body = String::from_str("could not replace value (").concat(
                    e.as_str(),
                ).concat(")");
                proof {
                    reveal_strlit("could not replace value (");
                    reveal_strlit("no data to edit");
                    reveal_strlit(")");
                    reveal_strlit("could not replace value (no data to edit)");
                    assert(self.status_body@ =~= "could not replace value (no data to edit)"@);
                }
            },
        }
    }

    /// Removes the byte left of the cursor and steps the cursor back,
    /// unless the cursor sat at the very end, where the re-clamped bound
    /// already moves it.
    pub fn remove_left(&mut self)
        requires
            old(self).wf(),
        ensures
            ({
                let i = active_value(old(self).model.caret) as int;
                let len = old(self).model.buffer@.len() as int;
                let lo = if i == 0 { 0int } else { i - 1 };
                if i <= len {
                    let edited = old(self).model.buffer@.subrange(0, lo) + old(
                        self,
                    ).model.buffer@.subrange(i, len);
                    let reb = rebound(old(self).model.caret, edited.len());
                    &&& final(self).model.buffer@ == edited
                    &&& final(self).model.caret == (if i == len {
                        reb
                    } else {
                        with_active_down(reb, 1)
                    })
                    &&& final(self).status_body@ == old(self).status_body@
                } else {
                    &&& final(self).model.buffer@ == old(self).model.buffer@
                    &&& final(self).model.caret == with_active_down(old(self).model.caret, 1)
                    &&& final(self).status_body@ == "could not remove value (no data to edit)"@
                }
            }),
            final(self).model.history == old(self).model.history,
            final(self).model.path@ == old(self).model.path@,
            final(self).state == old(self).state,
            final(self).mode == old(self).mode,
            final(self).yank == old(self).yank,
            final(self).viewport == old(self).viewport,
            final(self).status_head@ == old(self).status_head@,
            final(self).wf(),
    {
        let index = self.model.get_index();
        let at_end = index == self.model.buffer.len();
        let lo = if index == 0 { 0 } else { index - 1 };
        let empty: Vec<u8> = Vec::new();
        let ghost pre = self.model.buffer@;
        match self.model.edit(lo, index, empty.as_slice()) {
            Ok(_) => {
                proof {
                    assert(pre.subrange(0, lo as int) + empty@ + pre.subrange(
                        index as int,
                        pre.len() as int,
                    ) =~= pre.subrange(0, lo as int) + pre.subrange(index as int, pre.len() as int));
                }
            },
            Err(e) => {
                self.status_body = String::from_str("could not remove value (").concat(
                    e.as_str(),
                ).concat(")");
                proof {
                    reveal_strlit("could not remove value (");
                    reveal_strlit("no data to edit");
                    reveal_strlit(")");
                    reveal_strlit("could not remove value (no data to edit)");
                    assert(self.status_body@ =~= "could not remove value (no data to edit)"@);
                }
            },
        }
        if !at_end {
            self.model.dec_index(1);
        }
    }

    /// Removes the byte under the cursor; past the end the edit is
    /// refused and reported instead.
    pub fn remove_right(&mut self)
        requires
            old(self).wf(),
        ensures
            ({
                let i = active_value(old(self).model.caret) as int;
                let len = old(self).model.buffer@.len() as int;
                if i < len {
                    let edited = old(self).model.buffer@.subrange(0, i) + old(
                        self,
                    ).model.buffer@.subrange(i + 1, len);
                    &&& final(self).model.buffer@ == edited
                    &&& final(self).model.caret == rebound(old(self).model.caret, edited.len())
                    &&& final(self).status_body@ == old(self).status_body@
                } else {
                    &&& final(self).model.buffer@ == old(self).model.buffer@
                    &&& final(self).model.caret == old(self).model.caret
                    &&& final(self).status_body@ == "could not remove value (no data to edit)"@
                }
            }),
            final(self).model.history == old(self).model.history,
            final(self).model.path@ == old(self).model.path@,
            final(self).state == old(self).state,
            final(self).mode == old(self).mode,
            final(self).yank == old(self).yank,
            final(self).viewport == old(self).viewport,
            final(self).status_head@ == old(self).status_head@,
            final(self).wf(),
    {
        let len = self.model.buffer.len();
        let index = self.model.get_index();
        if index == usize::MAX {
            proof {
                assert(index as int >= len as int);
            }
            self.status_body = String::from_str("could not remove value (no data to edit)");
            return;
        }
        let empty: Vec<u8> = Vec::new();
        let ghost pre = self.model.buffer@;
        match self.model.edit(index, index + 1, empty.as_slice()) {
            Ok(_) => {
                proof {
                    assert(pre.subrange(0, index as int) + empty@ + pre.subrange(
                        index + 1,
                        pre.len() as int,
                    ) =~= pre.subrange(0, index as int) + pre.subrange(index + 1, pre.len() as int));
                }
            },
            Err(e) => {
                self.status_body = String::from_str("could not remove value (").concat(
                    e.as_str(),
                ).concat(")");
                proof {
                    reveal_strlit("could not remove value (");
                    reveal_strlit("no data to edit");
                    reveal_strlit(")");
                    reveal_strlit("could not remove value (no data to edit)");
                    assert(self.status_body@ =~= "could not remove value (no data to edit)"@);
                }
            },
        }
    }

    /// Splices `value` in at `index`, steps the cursor past it, and
    /// scrolls the pasted position into view; past the end of the
    /// buffer the edit is refused and reported instead.
    pub fn paste(&mut self, index: usize, value: &Vec<u8>)
        requires
            old(self).wf(),
        ensures
            ({
                let len = old(self).model.buffer@.len() as int;
                let edited = if index <= len {
                    old(self).model.buffer@.subrange(0, index as int) + value@ + old(
                        self,
                    ).model.buffer@.subrange(index as int, len)
                } else {
                    old(self).model.buffer@
                };
                let reb = if index <= len {
                    rebound(old(self).model.caret, edited.len())
                } else {
                    old(self).model.caret
                };
                let c2 = with_active_up(reb, value@.len() as usize);
                &&& final(self).model.buffer@ == edited
                &&& final(self).model.caret == c2
                &&& final(self).viewport == crate::view::scrolled(
                    old(self).viewport,
                    active_value(c2),
                )
                &&& (index > len ==> final(self).status_body@
                    == "could not insert value (no data to edit)"@)
                &&& (index <= len ==> final(self).status_body@ == old(self).status_body@)
            }),
            final(self).model.history == old(self).model.history,
            final(self).model.path@ == old(self).model.path@,
            final(self).state == old(self).state,
            final(self).mode == old(self).mode,
            final(self).yank == old(self).yank,
            final(self).status_head@ == old(self).status_head@,
            final(self).status_index == old(self).status_index,
            final(self).wf(),
    {
        match self.model.edit(index, index, value.as_slice()) {
            Ok(_) => {},
            Err(e) => {
                self.status_body = String::from_str("could not insert value (").concat(
                    e.as_str(),
                ).concat(")");
                proof {
                    reveal_strlit("could not insert value (");
                    reveal_strlit("no data to edit");
                    reveal_strlit(")");
                    reveal_strlit("could not insert value (no data to edit)");
                    assert(self.status_body@ =~= "could not insert value (no data to edit)"@);
                }
            },
        }
        self.model.inc_index(value.len());
        let here = self.model.get_index();
        self.viewport.scroll_to(here);
    }

    /// Applies one movement command: the caret moves, the viewport
    /// follows, and the status line shows the new position.  A pivot
    /// swap outside Visual mode changes nothing at all.
    fn do_move(&mut self, dir: Direction) -> (ret: Action)
        requires
            old(self).wf(),
        ensures
            ({
                let c2 = moved_caret(old(self).model.caret, dir);
                let skip_view = dir matches Direction::Revert && !(old(
                    self,
                ).model.caret matches Caret::Visual(_, _));
                &&& final(self).model.caret == c2
                &&& (if skip_view {
                    &&& final(self).viewport == old(self).viewport
                    &&& final(self).status_index == old(self).status_index
                    &&& final(self).status_body@ == old(self).status_body@
                } else {
                    &&& final(self).viewport == crate::view::scrolled(
                        old(self).viewport,
                        active_value(c2),
                    )
                    &&& final(self).status_index == active_value(c2)
                    &&& (if dir matches Direction::Offset(_) {
                        final(self).status_body@ == Seq::<char>::empty()
                    } else {
                        final(self).status_body@ == old(self).status_body@
                    })
                })
            }),
            final(self).model.buffer@ == old(self).model.buffer@,
            final(self).model.history == old(self).model.history,
            final(self).model.path@ == old(self).model.path@,
            final(self).state == old(self).state,
            final(self).mode == old(self).mode,
            final(self).yank == old(self).yank,
            final(self).status_head@ == old(self).status_head@,
            ret == Action::Continue,
            final(self).wf(),
    {
        match dir {
            Direction::Left => {
                self.model.dec_index(1);
            },
            Direction::Right => {
                self.model.inc_index(1);
            },
            Direction::Up => {
                self.model.dec_index(16);
            },
            Direction::Down => {
                self.model.inc_index(16);
            },
            Direction::Offset(offset) => {
                self.model.set_index(offset);
                let here = self.model.get_index();
                self.viewport.scroll_to(here);
                self.status_index = here;
                self.status_body = String::new();
                proof {
                    crate::view::lemma_scrolled_idempotent(old(self).viewport, here);
                }
            },
            Direction::Newline => {
                self.model.inc_index(16);
                let i = self.model.get_index();
                let rem = i % 16;
                self.model.set_index(i - rem);
            },
            Direction::Revert => {
                let c = self.model.caret;
                match c {
                    Caret::Visual(s, e) => {
                        self.model.caret = Caret::Visual(e, s);
                    },
                    _ => {
                        return Action::Continue;
                    },
                }
            },
        }
        let here = self.model.get_index();
        self.viewport.scroll_to(here);
        self.status_index = here;
        Action::Continue
    }

    /// Switches the caret to Normal and announces the mode.
    fn do_to_normal(&mut self)
        requires
            old(self).wf(),
        ensures
            final(self).model.caret == caret_to_normal(old(self).model.caret),
            final(self).status_body@ == banner("Normal"@, old(self).mode),
            final(self).model.buffer@ == old(self).model.buffer@,
            final(self).model.history == old(self).model.history,
            final(self).model.path@ == old(self).model.path@,
            final(self).state == old(self).state,
            final(self).mode == old(self).mode,
            final(self).yank == old(self).yank,
            final(self).viewport == old(self).viewport,
            final(self).status_head@ == old(self).status_head@,
            final(self).status_index == old(self).status_index,
            final(self).wf(),
    {
        let c = self.model.caret;
        self.model.caret = match c {
            Caret::Index(i) => {
                let v = if i.value == 0 {
                    0
                } else {
                    i.value - 1
                };
                let m = if i.max == 0 {
                    0
                } else {
                    i.max - 1
                };
                Caret::Offset(UsizeMax::new(v, m))
            },
            Caret::Offset(i) => Caret::Offset(i),
            Caret::Replace(i) => Caret::Offset(i),
            Caret::Visual(_, i) => Caret::Offset(i),
        };
        self.status_body = make_banner("Normal", self.mode);
    }

    /// Switches the caret to Insert and announces the mode.
    fn do_to_insert(&mut self)
        requires
            old(self).wf(),
        ensures
            final(self).model.caret == caret_to_insert(old(self).model.caret),
            final(self).status_body@ == banner("Insert"@, old(self).mode),
            final(self).model.buffer@ == old(self).model.buffer@,
            final(self).model.history == old(self).model.history,
            final(self).model.path@ == old(self).model.path@,
            final(self).state == old(self).state,
            final(self).mode == old(self).mode,
            final(self).yank == old(self).yank,
            final(self).viewport == old(self).viewport,
            final(self).status_head@ == old(self).status_head@,
            final(self).status_index == old(self).status_index,
            final(self).wf(),
    {
        let c = self.model.caret;
        self.model.caret = match c {
            Caret::Index(i) => Caret::Index(i),
            Caret::Offset(i) => Caret::Index(UsizeMax::new(i.value, grow_bound(i.max))),
            Caret::Replace(i) => Caret::Index(UsizeMax::new(i.value, grow_bound(i.max))),
            Caret::Visual(_, i) => Caret::Index(UsizeMax::new(i.value, grow_bound(i.max))),
        };
        self.status_body = make_banner("Insert", self.mode);
    }

    /// Switches the caret to Replace and announces the mode.
    fn do_to_replace(&mut self)
        requires
            old(self).wf(),
        ensures
            final(self).model.caret == caret_to_replace(old(self).model.caret),
            final(self).status_body@ == banner("Replace"@, old(self).mode),
            final(self).model.buffer@ == old(self).model.buffer@,
            final(self).model.history == old(self).model.history,
            final(self).model.path@ == old(self).model.path@,
            final(self).state == old(self).state,
            final(self).mode == old(self).mode,
            final(self).yank == old(self).yank,
            final(self).viewport == old(self).viewport,
            final(self).status_head@ == old(self).status_head@,
            final(self).status_index == old(self).status_index,
            final(self).wf(),
    {
        let c = self.model.caret;
        self.model.caret = match c {
            Caret::Index(i) => {
                let m = if i.max == 0 {
                    0
                } else {
                    i.max - 1
                };
                Caret::Replace(UsizeMax::new(i.value, m))
            },
            Caret::Offset(i) => Caret::Replace(i),
            Caret::Replace(i) => Caret::Replace(i),
            Caret::Visual(_, i) => Caret::Replace(i),
        };
        self.status_body = make_banner("Replace", self.mode);
    }

    /// Switches the caret to Visual and announces the mode; an existing
    /// selection is kept.
    fn do_to_visual(&mut self)
        requires
            old(self).wf(),
        ensures
            final(self).model.caret == caret_to_visual(old(self).model.caret),
            final(self).status_body@ == "-- Visual --"@,
            final(self).model.buffer@ == old(self).model.buffer@,
            final(self).model.history == old(self).model.history,
            final(self).model.path@ == old(self).model.path@,
            final(self).state == old(self).state,
            final(self).mode == old(self).mode,
            final(self).yank == old(self).yank,
            final(self).viewport == old(self).viewport,
            final(self).status_head@ == old(self).status_head@,
            final(self).status_index == old(self).status_index,
            final(self).wf(),
    {
        let c = self.model.caret;
        self.model.caret = match c {
            Caret::Index(i) => {
                let m = if i.max == 0 {
                    0
                } else {
                    i.max - 1
                };
                let p = UsizeMax::new(i.value, m);
                Caret::Visual(p, p)
            },
            Caret::Offset(i) => Caret::Visual(i, i),
            Caret::Replace(i) => Caret::Visual(i, i),
            Caret::Visual(s, e) => Caret::Visual(s, e),
        };
        self.status_body = String::from_str("-- Visual --");
    }
}


/// Whether `post`'s history is `pre`'s with one snapshot of `post`'s
/// own buffer and caret on top, and nothing left to redo.
pub open spec fn took_snapshot(pre: Model, post: Model) -> bool {
    snapshot_of(pre, post, post.buffer@, post.caret)
}

/// The clamped value of a bounded counter.
pub open spec fn cval(i: UsizeMax) -> int {
    vstd::math::min(i.value as int, i.max as int)
}

/// The entry mode after a switch request: the requested mode, or the
/// other one on a bare toggle.
pub open spec fn switched_mode(cur: InputMode, req: Option<InputMode>) -> InputMode {
    match req {
        Some(m) => m,
        None => match cur {
            InputMode::Hex => InputMode::Ascii,
            InputMode::Ascii => InputMode::Hex,
        },
    }
}

impl Controller {
    /// Handles one fully-decoded message: every editing message is
    /// applied to the model here; messages that need the file system,
    /// the clipboard or the screen come back as the matching [`Action`]
    /// for the application to perform.
    pub fn update(&mut self, msg: Msg) -> (ret: Action)
        requires
            old(self).wf(),
        ensures
            final(self).wf(),
            final(self).state == old(self).state,
            final(self).model.path@ == old(self).model.path@,
            final(self).status_head@ == old(self).status_head@,
            !(msg matches Msg::Switch(_)) ==> final(self).mode == old(self).mode,
            (msg matches Msg::Byte(b) ==> byte_post(*old(self), *final(self), b) && ret
                == Action::Continue),
            (msg matches Msg::Move(dir) ==> move_post(*old(self), *final(self), dir) && ret
                == Action::Continue),
            (msg matches Msg::Quit ==> *final(self) == *old(self) && ret == Action::QueryDisk),
            (msg matches Msg::QuitWithoutSaving ==> *final(self) == *old(self) && ret
                == Action::Stop),
            (msg matches Msg::Save ==> *final(self) == *old(self) && (ret
                matches Action::SaveFile { path, and_quit } && path@ == old(self).model.path@
                && !and_quit)),
            (msg matches Msg::SaveAs(p) ==> *final(self) == *old(self) && (ret
                matches Action::SaveFile { path, and_quit } && path@ == p@ && !and_quit)),
            (msg matches Msg::SaveAndQuit ==> *final(self) == *old(self) && (ret
                matches Action::SaveFile { path, and_quit } && path@ == old(self).model.path@
                && and_quit)),
            (msg matches Msg::Switch(req) ==> switch_post(*old(self), *final(self), req) && ret
                == Action::Continue),
            (msg matches Msg::Delete(mv) ==> delete_post(*old(self), *final(self), mv) && ret
                == Action::Continue),
            (msg matches Msg::ToNormal ==> to_normal_post(*old(self), *final(self)) && ret
                == Action::Continue),
            (msg matches Msg::ToInsert(_) ==> to_insert_post(*old(self), *final(self)) && ret
                == Action::Continue),
            (msg matches Msg::ToAppend(_) ==> to_append_post(*old(self), *final(self)) && ret
                == Action::Continue),
            (msg matches Msg::ToReplace ==> to_replace_post(*old(self), *final(self)) && ret
                == Action::Continue),
            (msg matches Msg::ToVisual ==> to_visual_post(*old(self), *final(self)) && ret
                == Action::Continue),
            (msg matches Msg::ToCommand ==> ({
                &&& final(self).status_body@ == ":"@
                &&& final(self).model == old(self).model
                &&& final(self).viewport == old(self).viewport
                &&& final(self).yank == old(self).yank
                &&& ret == Action::Continue
            })),
            (msg matches Msg::ClipboardCopy ==> ({
                &&& *final(self) == *old(self)
                &&& ({
                    let buf = old(self).model.buffer@;
                    if buf.len() == 0 {
                        ret == Action::Continue
                    } else {
                        match old(self).model.caret {
                            Caret::Offset(i) => ret matches Action::CopyToClipboard(v) && v@
                                == seq![buf[i.value as int]],
                            Caret::Visual(a, b) => {
                                let lo = vstd::math::min(cval(a), cval(b));
                                let hi = vstd::math::max(cval(a), cval(b));
                                ret matches Action::CopyToClipboard(v) && v@ == buf.subrange(
                                    lo,
                                    hi + 1,
                                )
                            },
                            _ => ret == Action::Continue,
                        }
                    }
                })
            })),
            (msg matches Msg::ClipboardPaste ==> *final(self) == *old(self) && ret
                == Action::PasteFromClipboard),
            (msg matches Msg::Yank ==> yank_post(*old(self), *final(self)) && ret
                == Action::Continue),
            (msg matches Msg::Paste(mv) ==> paste_post(*old(self), *final(self), mv) && ret
                == Action::Continue),
            (msg matches Msg::Undo ==> undo_post(*old(self), *final(self)) && ret
                == Action::Continue),
            (msg matches Msg::Redo ==> redo_post(*old(self), *final(self)) && ret
                == Action::Continue),
            (msg matches Msg::Show(m) ==> ({
                &&& final(self).status_body@ == m@
                &&& final(self).model == old(self).model
                &&& final(self).viewport == old(self).viewport
                &&& final(self).yank == old(self).yank
                &&& ret == Action::Continue
            })),
            (msg matches Msg::Redraw ==> *final(self) == *old(self) && ret == Action::Redraw),
            (msg matches Msg::Resize(size) ==> ({
                &&& final(self).viewport == (Viewport {
                    scroll_start: old(self).viewport.scroll_start,
                    height: (vstd::math::max(size.1 as int, 4) - 3) as usize,
                })
                &&& final(self).model == old(self).model
                &&& final(self).yank == old(self).yank
                &&& ret == Action::Continue
            })),
    {
        match msg {
            Msg::Byte(byte) => {
                let c = self.model.caret;
                match c {
                    Caret::Index(_) => self.insert(byte),
                    Caret::Replace(_) => self.replace(byte),
                    _ => {},
                }
                self.model.snapshot();
                Action::Continue
            },
            Msg::Move(dir) => self.do_move(dir),
            Msg::Quit => Action::QueryDisk,
            Msg::QuitWithoutSaving => Action::Stop,
            Msg::Save => Action::SaveFile { path: self.model.path.clone(), and_quit: false },
            Msg::SaveAs(path) => Action::SaveFile { path, and_quit: false },
            Msg::SaveAndQuit => Action::SaveFile { path: self.model.path.clone(), and_quit: true },
            Msg::Switch(req) => {
                self.mode = match req {
                    Some(InputMode::Ascii) => InputMode::Ascii,
                    Some(InputMode::Hex) => InputMode::Hex,
                    None => match self.mode {
                        InputMode::Hex => InputMode::Ascii,
                        InputMode::Ascii => InputMode::Hex,
                    },
                };
                self.status_body = make_banner("Normal", self.mode);
                Action::Continue
            },
            Msg::Delete(movement) => self.do_delete(movement),
            Msg::ToNormal => {
                self.do_to_normal();
                Action::Continue
            },
            Msg::ToInsert(_repeat) => {
                self.do_to_insert();
                Action::Continue
            },
            Msg::ToAppend(_repeat) => {
                self.do_to_insert();
                self.do_move(Direction::Right)
            },
            Msg::ToReplace => {
                self.do_to_replace();
                Action::Continue
            },
            Msg::ToVisual => {
                self.do_to_visual();
                Action::Continue
            },
            Msg::ToCommand => {
                self.status_body = String::from_str(":");
                Action::Continue
            },
            Msg::ClipboardCopy => {
                if self.model.buffer.len() == 0 {
                    return Action::Continue;
                }
                let c = self.model.caret;
                match c {
                    Caret::Offset(i) => {
                        let mut bytes: Vec<u8> = Vec::new();
                        bytes.push(self.model.buffer[i.value]);
                        Action::CopyToClipboard(bytes)
                    },
                    Caret::Visual(a, b) => {
                        let bytes = self.copy_range(a, b);
                        Action::CopyToClipboard(bytes)
                    },
                    _ => Action::Continue,
                }
            },
            Msg::ClipboardPaste => Action::PasteFromClipboard,
            Msg::Yank => {
                self.do_yank();
                Action::Continue
            },
            Msg::Paste(movement) => {
                self.do_paste_register(movement);
                Action::Continue
            },
            Msg::Undo => {
                if !self.model.undo() {
                    self.status_body = String::from_str("Nothing to undo");
                }
                let here = self.model.get_index();
                self.viewport.scroll_to(here);
                Action::Continue
            },
            Msg::Redo => {
                if !self.model.redo() {
                    self.status_body = String::from_str("Nothing to redo");
                }
                let here = self.model.get_index();
                self.viewport.scroll_to(here);
                Action::Continue
            },
            Msg::Show(m) => {
                self.status_body = m;
                Action::Continue
            },
            Msg::Redraw => Action::Redraw,
            Msg::Resize(size) => {
                self.viewport.resize(size.1);
                Action::Continue
            },
        }
    }


    /// Applies a delete message; see [`delete_post`].
    fn do_delete(&mut self, movement: Option<Movement>) -> (ret: Action)
        requires
            old(self).wf(),
        ensures
            delete_post(*old(self), *final(self), movement),
            final(self).state == old(self).state,
            final(self).mode == old(self).mode,
            final(self).model.path@ == old(self).model.path@,
            final(self).status_head@ == old(self).status_head@,
            ret == Action::Continue,
            final(self).wf(),
    {
        if self.model.buffer.len() == 0 {
            return Action::Continue;
        }
        match movement {
            Some(Movement::Left) => {
                self.remove_left();
                self.model.snapshot();
            },
            Some(Movement::Right) => {
                let c = self.model.caret;
                if let Caret::Offset(i) = c {
                    let mut one: Vec<u8> = Vec::new();
                    one.push(self.model.buffer[i.value]);
                    self.yank = Some(one);
                }
                self.remove_right();
                self.model.snapshot();
            },
            None => {
                let c = self.model.caret;
                if let Caret::Visual(a, b) = c {
                    let bytes = self.copy_range(a, b);
                    self.yank = Some(bytes);
                    let av = a.get_clamped();
                    let bv = b.get_clamped();
                    let (lo, hi) = if av > bv {
                        (bv, av)
                    } else {
                        (av, bv)
                    };
                    let empty: Vec<u8> = Vec::new();
                    match self.model.edit(lo, hi + 1, empty.as_slice()) {
                        Ok(_) => {
                            self.model.set_index(lo);
                        },
                        Err(_) => {
                            proof {
                                assert(false);
                            }
                        },
                    }
                    let here = self.model.get_index();
                    self.viewport.scroll_to(here);
                    self.model.snapshot();
                }
            },
        }
        Action::Continue
    }

    /// Applies a yank message; see [`yank_post`].
    fn do_yank(&mut self)
        requires
            old(self).wf(),
        ensures
            yank_post(*old(self), *final(self)),
            final(self).state == old(self).state,
            final(self).mode == old(self).mode,
            final(self).model.path@ == old(self).model.path@,
            final(self).status_head@ == old(self).status_head@,
            final(self).wf(),
    {
        if self.model.buffer.len() == 0 {
            return;
        }
        let c = self.model.caret;
        match c {
            Caret::Offset(i) => {
                let mut one: Vec<u8> = Vec::new();
                one.push(self.model.buffer[i.value]);
                self.yank = Some(one);
            },
            Caret::Visual(a, b) => {
                let bytes = self.copy_range(a, b);
                self.yank = Some(bytes);
                self.do_to_normal();
            },
            _ => {},
        }
    }

    /// Applies a paste message; see [`paste_post`].
    fn do_paste_register(&mut self, movement: Option<Movement>)
        requires
            old(self).wf(),
        ensures
            paste_post(*old(self), *final(self), movement),
            final(self).state == old(self).state,
            final(self).mode == old(self).mode,
            final(self).model.path@ == old(self).model.path@,
            final(self).status_head@ == old(self).status_head@,
            final(self).wf(),
    {
        let value = match &self.yank {
            Some(v) => crate::model::clone_bytes(v),
            None => {
                return;
            },
        };
        match movement {
            Some(Movement::Right) => {
                let index = self.model.get_index();
                let at = if index == usize::MAX {
                    index
                } else {
                    index + 1
                };
                self.paste(at, &value);
                self.model.snapshot();
            },
            Some(Movement::Left) => {
                let index = self.model.get_index();
                self.paste(index, &value);
                self.do_move(Direction::Left);
                self.model.snapshot();
            },
            None => {
                let index = self.model.get_index();
                self.paste(index, &value);
                self.do_move(Direction::Left);
                self.model.snapshot();
            },
        }
    }


    /// Decides a quit request against the given on-disk content: a
    /// buffer that differs from the disk is protected by a warning, an
    /// unchanged one lets the editor stop.
    pub fn decide_quit(&mut self, disc_content: &Vec<u8>) -> (ret: Action)
        requires
            old(self).wf(),
        ensures
            (old(self).model.buffer@ != disc_content@) ==> ({
                &&& final(self).status_body@
                    == "save your changes with :w or force quit with :q!"@
                &&& final(self).model == old(self).model
                &&& final(self).state == old(self).state
                &&& final(self).viewport == old(self).viewport
                &&& final(self).yank == old(self).yank
                &&& final(self).mode == old(self).mode
                &&& final(self).status_head@ == old(self).status_head@
                &&& ret == Action::Continue
            }),
            (old(self).model.buffer@ == disc_content@) ==> *final(self) == *old(self) && ret
                == Action::Stop,
            final(self).wf(),
    {
        if self.model.is_modified(disc_content) {
            self.status_body = String::from_str(
                "save your changes with :w or force quit with :q!",
            );
            Action::Continue
        } else {
            Action::Stop
        }
    }

    /// Records the outcome of a save the application performed: the
    /// status line reports it, and a save-and-quit that succeeded stops
    /// the editor.
    pub fn save_result(&mut self, path: &str, result: Result<(), String>, and_quit: bool) -> (ret:
        Action)
        requires
            old(self).wf(),
        ensures
            (result is Ok ==> final(self).status_body@ == "\""@ + path@ + "\" saved"@ && ret == (
            if and_quit {
                Action::Stop
            } else {
                Action::Continue
            })),
            (result matches Err(e) ==> final(self).status_body@ == "could not save \""@ + old(
                self,
            ).model.path@ + "\": "@ + e@ && ret == Action::Continue),
            final(self).model == old(self).model,
            final(self).state == old(self).state,
            final(self).viewport == old(self).viewport,
            final(self).yank == old(self).yank,
            final(self).mode == old(self).mode,
            final(self).status_head@ == old(self).status_head@,
            final(self).wf(),
    {
        match result {
            Ok(_) => {
                self.status_body = String::from_str("\"").concat(path).concat("\" saved");
                if and_quit {
                    Action::Stop
                } else {
                    Action::Continue
                }
            },
            Err(e) => {
                self.status_body = String::from_str("could not save \"").concat(
                    self.model.path.as_str(),
                ).concat("\": ").concat(e.as_str());
                Action::Continue
            },
        }
    }

    /// Takes the outcome of a clipboard read: decoded bytes are pasted
    /// at the cursor and recorded in the history, a failure message is
    /// shown instead.
    pub fn paste_result(&mut self, data: Result<Vec<u8>, String>)
        requires
            old(self).wf(),
        ensures
            (data matches Ok(v) ==> ({
                let len = old(self).model.buffer@.len() as int;
                let at = active_value(old(self).model.caret) as int;
                let edited = if at <= len {
                    old(self).model.buffer@.subrange(0, at) + v@ + old(self).model.buffer@.subrange(
                        at,
                        len,
                    )
                } else {
                    old(self).model.buffer@
                };
                let reb = if at <= len {
                    rebound(old(self).model.caret, edited.len())
                } else {
                    old(self).model.caret
                };
                let c2 = with_active_up(reb, v@.len() as usize);
                &&& final(self).model.buffer@ == edited
                &&& final(self).model.caret == c2
                &&& final(self).viewport == crate::view::scrolled(
                    old(self).viewport,
                    active_value(c2),
                )
                &&& took_snapshot(old(self).model, final(self).model)
            })),
            (data matches Err(e) ==> final(self).status_body@ == e@ && final(self).model == old(
                self,
            ).model && final(self).viewport == old(self).viewport),
            final(self).state == old(self).state,
            final(self).yank == old(self).yank,
            final(self).mode == old(self).mode,
            final(self).status_head@ == old(self).status_head@,
            final(self).wf(),
    {
        match data {
            Ok(value) => {
                let index = self.model.get_index();
                self.paste(index, &value);
                self.model.snapshot();
            },
            Err(e) => {
                self.status_body = e;
            },
        }
    }

    /// Copies the normalized inclusive range of a selection out of the
    /// buffer.
    fn copy_range(&self, a: UsizeMax, b: UsizeMax) -> (ret: Vec<u8>)
        requires
            self.wf(),
            self.model.buffer@.len() > 0,
            self.model.caret matches Caret::Visual(s, e) && s == a && e == b,
        ensures
            ret@ == self.model.buffer@.subrange(
                vstd::math::min(cval(a), cval(b)),
                vstd::math::max(cval(a), cval(b)) + 1,
            ),
    {
        let av = a.get_clamped();
        let bv = b.get_clamped();
        let (lo, hi) = if av > bv {
            (bv, av)
        } else {
            (av, bv)
        };
        let mut bytes: Vec<u8> = Vec::new();
        let mut k = lo;
        while k <= hi
            invariant
                lo <= k <= hi + 1,
                hi < self.model.buffer@.len(),
                self.model.buffer@.len() <= usize::MAX,
                bytes@ == self.model.buffer@.subrange(lo as int, k as int),
            decreases hi + 1 - k,
        {
            bytes.push(self.model.buffer[k]);
            proof {
                assert(bytes@ =~= self.model.buffer@.subrange(lo as int, k + 1));
            }
            k = k + 1;
        }
        bytes
    }
}

/// The effect of a delete message: nothing on an empty buffer; a
/// one-byte removal beside the cursor (remembering the byte when it was
/// under an on-byte cursor), or the removal of the whole selection,
/// each followed by a snapshot.
pub open spec fn delete_post(pre: Controller, post: Controller, mv: Option<Movement>) -> bool {
    let len = pre.model.buffer@.len() as int;
    let i = active_value(pre.model.caret) as int;
    if len == 0 {
        post == pre
    } else {
        match mv {
            Some(Movement::Left) => {
                let lo = if i == 0 { 0int } else { i - 1 };
                let edited = pre.model.buffer@.subrange(0, lo) + pre.model.buffer@.subrange(i, len);
                let reb = rebound(pre.model.caret, edited.len());
                &&& post.model.buffer@ == edited
                &&& post.model.caret == (if i == len { reb } else { with_active_down(reb, 1) })
                &&& took_snapshot(pre.model, post.model)
                &&& post.status_body@ == pre.status_body@
                &&& post.yank == pre.yank
                &&& post.viewport == pre.viewport
            },
            Some(Movement::Right) => {
                &&& (pre.model.caret matches Caret::Offset(oi) ==> (post.yank matches Some(v) && v@
                    == seq![pre.model.buffer@[oi.value as int]]))
                &&& (!(pre.model.caret matches Caret::Offset(_)) ==> post.yank == pre.yank)
                &&& (i < len ==> post.model.buffer@ == pre.model.buffer@.subrange(0, i)
                    + pre.model.buffer@.subrange(i + 1, len) && post.model.caret == rebound(
                    pre.model.caret,
                    (len - 1) as nat,
                ) && post.status_body@ == pre.status_body@)
                &&& (i >= len ==> post.model.buffer@ == pre.model.buffer@ && post.model.caret
                    == pre.model.caret && post.status_body@
                    == "could not remove value (no data to edit)"@)
                &&& took_snapshot(pre.model, post.model)
                &&& post.viewport == pre.viewport
            },
            None => {
                match pre.model.caret {
                    Caret::Visual(a, b) => {
                        let lo = vstd::math::min(cval(a), cval(b));
                        let hi = vstd::math::max(cval(a), cval(b));
                        let edited = pre.model.buffer@.subrange(0, lo)
                            + pre.model.buffer@.subrange(hi + 1, len);
                        let c2 = with_active_set(rebound(pre.model.caret, edited.len()), lo as usize);
                        &&& (post.yank matches Some(v) && v@ == pre.model.buffer@.subrange(
                            lo,
                            hi + 1,
                        ))
                        &&& post.model.buffer@ == edited
                        &&& post.model.caret == c2
                        &&& post.viewport == crate::view::scrolled(
                            pre.viewport,
                            active_value(c2),
                        )
                        &&& took_snapshot(pre.model, post.model)
                        &&& post.status_body@ == pre.status_body@
                    },
                    _ => post == pre,
                }
            },
        }
    }
}

/// The effect of a yank message: the byte under an on-byte cursor or
/// the normalized selection is remembered; yanking a selection also
/// returns to Normal.
pub open spec fn yank_post(pre: Controller, post: Controller) -> bool {
    let len = pre.model.buffer@.len() as int;
    if len == 0 {
        untouched(pre, post)
    } else {
        match pre.model.caret {
            Caret::Offset(i) => {
                &&& (post.yank matches Some(v) && v@ == seq![pre.model.buffer@[i.value as int]])
                &&& post.model == pre.model
                &&& post.viewport == pre.viewport
                &&& post.status_body@ == pre.status_body@
            },
            Caret::Visual(a, b) => {
                let lo = vstd::math::min(cval(a), cval(b));
                let hi = vstd::math::max(cval(a), cval(b));
                &&& (post.yank matches Some(v) && v@ == pre.model.buffer@.subrange(lo, hi + 1))
                &&& post.model.caret == caret_to_normal(pre.model.caret)
                &&& post.model.buffer@ == pre.model.buffer@
                &&& post.model.history == pre.model.history
                &&& post.status_body@ == banner("Normal"@, pre.mode)
                &&& post.viewport == pre.viewport
            },
            _ => untouched(pre, post),
        }
    }
}

/// The effect of a paste message: nothing without a yank register;
/// otherwise the register is spliced in beside the cursor, the cursor
/// and viewport follow, and a snapshot is taken.
pub open spec fn paste_post(pre: Controller, post: Controller, mv: Option<Movement>) -> bool {
    match pre.yank {
        None => post == pre,
        Some(v) => {
            let len = pre.model.buffer@.len() as int;
            let at: int = match mv {
                Some(Movement::Right) => sat_inc(active_value(pre.model.caret)) as int,
                _ => active_value(pre.model.caret) as int,
            };
            let edited = if at <= len {
                pre.model.buffer@.subrange(0, at) + v@ + pre.model.buffer@.subrange(at, len)
            } else {
                pre.model.buffer@
            };
            let reb = if at <= len {
                rebound(pre.model.caret, edited.len())
            } else {
                pre.model.caret
            };
            let c2 = with_active_up(reb, v@.len() as usize);
            let c3 = match mv {
                Some(Movement::Right) => c2,
                _ => with_active_down(c2, 1),
            };
            &&& post.model.buffer@ == edited
            &&& post.model.caret == c3
            &&& (match mv {
                Some(Movement::Right) => post.viewport == crate::view::scrolled(
                    pre.viewport,
                    active_value(c2),
                ),
                _ => post.viewport == crate::view::scrolled(
                    crate::view::scrolled(pre.viewport, active_value(c2)),
                    active_value(c3),
                ),
            })
            &&& took_snapshot(pre.model, post.model)
            &&& post.yank == pre.yank
            &&& (at > len ==> post.status_body@ == "could not insert value (no data to edit)"@)
            &&& (at <= len ==> post.status_body@ == pre.status_body@)
        },
    }
}


/// The key after terminal normalization: an escape reported as an Alt
/// sequence counts as Escape.
pub open spec fn norm_key(key: Key) -> Key {
    if key == Key::Alt('\u{1b}') {
        Key::Esc
    } else {
        key
    }
}

/// A freshly-constructed entry machine for the given mode.
pub open spec fn fresh_machine(m: InputStateMachine, mode: InputMode) -> bool {
    &&& m.mode == mode
    &&& (m.state matches InputState::Incomplete(t) && t@.len() == 0)
}

/// Whether composition has not started (a finished machine counts).
pub open spec fn machine_initial(m: InputStateMachine) -> bool {
    match m.state {
        InputState::Incomplete(t) => t@.len() == 0,
        InputState::Done(_) => true,
    }
}

/// Nothing of the controller but the modal state changed.
pub open spec fn untouched(pre: Controller, post: Controller) -> bool {
    &&& post.model == pre.model
    &&& post.viewport == pre.viewport
    &&& post.mode == pre.mode
    &&& post.yank == pre.yank
    &&& post.status_head == pre.status_head
    &&& post.status_body == pre.status_body
    &&& post.status_index == pre.status_index
}

/// The effect of one movement command on everything but the modal
/// state.
pub open spec fn move_post(pre: Controller, post: Controller, dir: Direction) -> bool {
    let c2 = moved_caret(pre.model.caret, dir);
    let skip_view = dir matches Direction::Revert && !(pre.model.caret matches Caret::Visual(_, _));
    &&& post.model.caret == c2
    &&& post.model.buffer@ == pre.model.buffer@
    &&& post.model.history == pre.model.history
    &&& (skip_view ==> post.viewport == pre.viewport && post.status_body@ == pre.status_body@
        && post.status_index == pre.status_index)
    &&& (!skip_view ==> post.viewport == crate::view::scrolled(pre.viewport, active_value(c2))
        && post.status_index == active_value(c2))
    &&& ((!skip_view && dir matches Direction::Offset(_)) ==> post.status_body@ == Seq::<
        char,
    >::empty())
    &&& ((!skip_view && !(dir matches Direction::Offset(_))) ==> post.status_body@
        == pre.status_body@)
    &&& post.yank == pre.yank
    &&& post.mode == pre.mode
}

/// The effect of returning to Normal mode.
pub open spec fn to_normal_post(pre: Controller, post: Controller) -> bool {
    &&& post.model.caret == caret_to_normal(pre.model.caret)
    &&& post.status_body@ == banner("Normal"@, pre.mode)
    &&& post.model.buffer@ == pre.model.buffer@
    &&& post.model.history == pre.model.history
    &&& post.viewport == pre.viewport
    &&& post.yank == pre.yank
    &&& post.mode == pre.mode
    &&& post.status_index == pre.status_index
}

/// The effect of entering Insert mode.
pub open spec fn to_insert_post(pre: Controller, post: Controller) -> bool {
    &&& post.model.caret == caret_to_insert(pre.model.caret)
    &&& post.status_body@ == banner("Insert"@, pre.mode)
    &&& post.model.buffer@ == pre.model.buffer@
    &&& post.model.history == pre.model.history
    &&& post.viewport == pre.viewport
    &&& post.yank == pre.yank
    &&& post.mode == pre.mode
}

/// The effect of entering Insert mode in append position: the cursor
/// additionally steps one to the right.
pub open spec fn to_append_post(pre: Controller, post: Controller) -> bool {
    let c2 = moved_caret(caret_to_insert(pre.model.caret), Direction::Right);
    &&& post.model.caret == c2
    &&& post.status_body@ == banner("Insert"@, pre.mode)
    &&& post.model.buffer@ == pre.model.buffer@
    &&& post.model.history == pre.model.history
    &&& post.viewport == crate::view::scrolled(pre.viewport, active_value(c2))
    &&& post.status_index == active_value(c2)
    &&& post.yank == pre.yank
    &&& post.mode == pre.mode
}

/// The effect of entering Replace mode.
pub open spec fn to_replace_post(pre: Controller, post: Controller) -> bool {
    &&& post.model.caret == caret_to_replace(pre.model.caret)
    &&& post.status_body@ == banner("Replace"@, pre.mode)
    &&& post.model.buffer@ == pre.model.buffer@
    &&& post.model.history == pre.model.history
    &&& post.viewport == pre.viewport
    &&& post.yank == pre.yank
    &&& post.mode == pre.mode
}

/// The effect of entering Visual mode.
pub open spec fn to_visual_post(pre: Controller, post: Controller) -> bool {
    &&& post.model.caret == caret_to_visual(pre.model.caret)
    &&& post.status_body@ == "-- Visual --"@
    &&& post.model.buffer@ == pre.model.buffer@
    &&& post.model.history == pre.model.history
    &&& post.viewport == pre.viewport
    &&& post.yank == pre.yank
    &&& post.mode == pre.mode
}

/// The effect of toggling or setting the entry mode.
pub open spec fn switch_post(pre: Controller, post: Controller, req: Option<InputMode>) -> bool {
    &&& post.mode == switched_mode(pre.mode, req)
    &&& post.status_body@ == banner("Normal"@, post.mode)
    &&& post.model == pre.model
    &&& post.viewport == pre.viewport
    &&& post.yank == pre.yank
}

/// Whether `post`'s history is `pre`'s with one snapshot of the given
/// buffer and caret on top, and nothing left to redo.
pub open spec fn snapshot_of(pre: Model, post: Model, buf: Seq<u8>, c: Caret) -> bool {
    &&& post.history.done_states().len() == pre.history.done_states().len() + 1
    &&& post.history.done_states().subrange(0, pre.history.done_states().len() as int)
        == pre.history.done_states()
    &&& post.history.done_states().last().0@ == buf
    &&& post.history.done_states().last().1 == c
    &&& post.history.recall_states().len() == 0
}

/// The buffer after one composed byte lands: inserted at an insertion
/// cursor, overwritten at a replace cursor, ignored elsewhere; an edit
/// past the end leaves the buffer alone.
pub open spec fn byte_buffer(pre: Model, b: u8) -> Seq<u8> {
    let i = active_value(pre.caret) as int;
    let len = pre.buffer@.len() as int;
    match pre.caret {
        Caret::Index(_) => if i <= len {
            pre.buffer@.insert(i, b)
        } else {
            pre.buffer@
        },
        Caret::Replace(_) => if i < len {
            pre.buffer@.update(i, b)
        } else {
            pre.buffer@
        },
        _ => pre.buffer@,
    }
}

/// The caret after one composed byte lands.
pub open spec fn byte_caret(pre: Model, b: u8) -> Caret {
    let i = active_value(pre.caret) as int;
    let len = pre.buffer@.len() as int;
    match pre.caret {
        Caret::Index(_) => with_active_up(
            if i <= len {
                rebound(pre.caret, byte_buffer(pre, b).len())
            } else {
                pre.caret
            },
            1,
        ),
        Caret::Replace(_) => if i < len {
            rebound(pre.caret, pre.buffer@.len())
        } else {
            pre.caret
        },
        _ => pre.caret,
    }
}

/// The effect of one composed byte followed by its snapshot.
pub open spec fn byte_post(pre: Controller, post: Controller, b: u8) -> bool {
    &&& post.model.buffer@ == byte_buffer(pre.model, b)
    &&& post.model.caret == byte_caret(pre.model, b)
    &&& snapshot_of(pre.model, post.model, post.model.buffer@, post.model.caret)
    &&& post.viewport == pre.viewport
    &&& post.yank == pre.yank
    &&& post.mode == pre.mode
}

/// The effect of a composed byte, its snapshot, and the step right that
/// repeating Replace mode takes.
pub open spec fn byte_then_right_post(pre: Controller, post: Controller, b: u8) -> bool {
    let c1 = byte_caret(pre.model, b);
    let c2 = with_active_up(c1, 1);
    &&& post.model.buffer@ == byte_buffer(pre.model, b)
    &&& post.model.caret == c2
    &&& snapshot_of(pre.model, post.model, post.model.buffer@, c1)
    &&& post.viewport == crate::view::scrolled(pre.viewport, active_value(c2))
    &&& post.status_index == active_value(c2)
    &&& post.yank == pre.yank
    &&& post.mode == pre.mode
}

/// The effect of a composed byte, its snapshot, and the return to
/// Normal that single-shot Replace mode takes.
pub open spec fn byte_then_normal_post(pre: Controller, post: Controller, b: u8) -> bool {
    let c1 = byte_caret(pre.model, b);
    &&& post.model.buffer@ == byte_buffer(pre.model, b)
    &&& post.model.caret == caret_to_normal(c1)
    &&& snapshot_of(pre.model, post.model, post.model.buffer@, c1)
    &&& post.status_body@ == banner("Normal"@, pre.mode)
    &&& post.viewport == pre.viewport
    &&& post.yank == pre.yank
    &&& post.mode == pre.mode
}

/// The effect of undoing one step.
pub open spec fn undo_post(pre: Controller, post: Controller) -> bool {
    let d0 = pre.model.history.done_states();
    &&& (d0.len() <= 1 ==> post.model.buffer@ == pre.model.buffer@ && post.model.caret
        == pre.model.caret && post.model.history.done_states() == d0
        && post.model.history.recall_states() == pre.model.history.recall_states()
        && post.status_body@ == "Nothing to undo"@)
    &&& (d0.len() > 1 ==> post.model.buffer@ == d0[d0.len() - 2].0@ && post.model.caret == d0[d0.len()
        - 2].1 && post.model.history.done_states() == d0.drop_last()
        && post.model.history.recall_states() == pre.model.history.recall_states().push(d0.last())
        && post.status_body@ == pre.status_body@)
    &&& post.viewport == crate::view::scrolled(pre.viewport, active_value(post.model.caret))
    &&& post.yank == pre.yank
    &&& post.mode == pre.mode
}

/// The effect of redoing one step.
pub open spec fn redo_post(pre: Controller, post: Controller) -> bool {
    let r0 = pre.model.history.recall_states();
    &&& (r0.len() == 0 ==> post.model.buffer@ == pre.model.buffer@ && post.model.caret
        == pre.model.caret && post.model.history.done_states() == pre.model.history.done_states()
        && post.model.history.recall_states() == r0 && post.status_body@ == "Nothing to redo"@)
    &&& (r0.len() > 0 ==> post.model.buffer@ == r0.last().0@ && post.model.caret == r0.last().1
        && post.model.history.done_states() == pre.model.history.done_states().push(r0.last())
        && post.model.history.recall_states() == r0.drop_last() && post.status_body@
        == pre.status_body@)
    &&& post.viewport == crate::view::scrolled(pre.viewport, active_value(post.model.caret))
    &&& post.yank == pre.yank
    &&& post.mode == pre.mode
}

/// What a clipboard copy hands the application: the byte under an
/// on-byte cursor or the normalized selection, and nothing otherwise.
pub open spec fn copy_ret(pre: Controller, ret: Action) -> bool {
    let buf = pre.model.buffer@;
    if buf.len() == 0 {
        ret == Action::Continue
    } else {
        match pre.model.caret {
            Caret::Offset(i) => ret matches Action::CopyToClipboard(v) && v@ == seq![
                buf[i.value as int],
            ],
            Caret::Visual(a, b) => {
                let lo = vstd::math::min(cval(a), cval(b));
                let hi = vstd::math::max(cval(a), cval(b));
                ret matches Action::CopyToClipboard(v) && v@ == buf.subrange(lo, hi + 1)
            },
            _ => ret == Action::Continue,
        }
    }
}

/// The effect of deleting the selection and returning to Normal.
pub open spec fn visual_delete_post(pre: Controller, post: Controller) -> bool {
    let len = pre.model.buffer@.len() as int;
    if len == 0 {
        &&& to_normal_post(pre, post)
    } else {
        match pre.model.caret {
            Caret::Visual(a, b) => {
                let lo = vstd::math::min(cval(a), cval(b));
                let hi = vstd::math::max(cval(a), cval(b));
                let edited = pre.model.buffer@.subrange(0, lo) + pre.model.buffer@.subrange(
                    hi + 1,
                    len,
                );
                let c2 = with_active_set(rebound(pre.model.caret, edited.len()), lo as usize);
                &&& (post.yank matches Some(v) && v@ == pre.model.buffer@.subrange(lo, hi + 1))
                &&& post.model.buffer@ == edited
                &&& post.model.caret == caret_to_normal(c2)
                &&& snapshot_of(pre.model, post.model, edited, c2)
                &&& post.viewport == crate::view::scrolled(pre.viewport, active_value(c2))
                &&& post.status_body@ == banner("Normal"@, pre.mode)
                &&& post.mode == pre.mode
            },
            _ => to_normal_post(pre, post),
        }
    }
}

/// The effect of executing one parsed command line.
pub open spec fn command_exec_post(
    pre: Controller,
    post: Controller,
    cmd: Seq<char>,
    ret: Action,
) -> bool {
    if cmd.len() >= 2 && cmd[0] == 'w' && cmd[1] == ' ' {
        untouched(pre, post) && (ret matches Action::SaveFile { path, and_quit } && path@
            == crate::vim::trimmed(cmd.skip(2)) && !and_quit)
    } else if cmd == "q"@ {
        untouched(pre, post) && ret == Action::QueryDisk
    } else if cmd == "q!"@ {
        untouched(pre, post) && ret == Action::Stop
    } else if cmd == "w"@ {
        untouched(pre, post) && (ret matches Action::SaveFile { path, and_quit } && path@
            == pre.model.path@ && !and_quit)
    } else if cmd == "wq"@ || cmd == "x"@ {
        untouched(pre, post) && (ret matches Action::SaveFile { path, and_quit } && path@
            == pre.model.path@ && and_quit)
    } else {
        let skip: int = if cmd.len() >= 2 && cmd[0] == '0' && (cmd[1] == 'b' || cmd[1] == '8'
            || cmd[1] == 'x') {
            2
        } else {
            0
        };
        let base: int = if cmd.len() >= 2 && cmd[0] == '0' && cmd[1] == 'b' {
            2
        } else if cmd.len() >= 2 && cmd[0] == '0' && cmd[1] == '8' {
            8
        } else if cmd.len() >= 2 && cmd[0] == '0' && cmd[1] == 'x' {
            16
        } else {
            10
        };
        let body = cmd.skip(skip);
        let digits = crate::vim::strip_plus(body);
        if crate::vim::is_numeral(body, base) && crate::vim::numeral_value(digits, base)
            <= usize::MAX {
            move_post(pre, post, Direction::Offset(crate::vim::numeral_value(digits, base) as usize))
                && ret == Action::Continue
        } else {
            &&& post.status_body@ == "no such command"@
            &&& post.model == pre.model
            &&& post.viewport == pre.viewport
            &&& post.yank == pre.yank
            &&& post.mode == pre.mode
            &&& ret == Action::Continue
        }
    }
}

/// One key in Normal mode.
pub open spec fn normal_step(pre: Controller, post: Controller, key: Key, ret: Action) -> bool {
    let k = norm_key(key);
    match direction_of_key(k) {
        Some(d) => post.state == VimState::Normal && move_post(pre, post, d) && ret
            == Action::Continue,
        None => {
            if k == Key::Backspace {
                post.state == VimState::Normal && move_post(pre, post, Direction::Left) && ret
                    == Action::Continue
            } else if k == Key::Char('\t') {
                post.state == VimState::Normal && switch_post(pre, post, None) && ret
                    == Action::Continue
            } else if k == Key::Char('a') {
                (post.state matches VimState::Insert(m) && fresh_machine(m, post.mode))
                    && to_append_post(pre, post) && ret == Action::Continue
            } else if k == Key::Char('i') {
                (post.state matches VimState::Insert(m) && fresh_machine(m, post.mode))
                    && to_insert_post(pre, post) && ret == Action::Continue
            } else if k == Key::Delete || k == Key::Char('x') {
                post.state == VimState::Normal && delete_post(pre, post, Some(Movement::Right))
                    && ret == Action::Continue
            } else if k == Key::Char('r') {
                (post.state matches VimState::Replace(m, many) && fresh_machine(m, post.mode)
                    && !many) && to_replace_post(pre, post) && ret == Action::Continue
            } else if k == Key::Char('R') {
                (post.state matches VimState::Replace(m, many) && fresh_machine(m, post.mode)
                    && many) && to_replace_post(pre, post) && ret == Action::Continue
            } else if k == Key::Char('v') {
                post.state == VimState::Visual && to_visual_post(pre, post) && ret
                    == Action::Continue
            } else if k == Key::Char(':') {
                (post.state matches VimState::Command(t) && t@.len() == 0) && post.status_body@
                    == ":"@ && post.model == pre.model && post.viewport == pre.viewport
                    && post.yank == pre.yank && post.mode == pre.mode && ret == Action::Continue
            } else if k == Key::Char('\n') {
                post.state == VimState::Normal && move_post(pre, post, Direction::Newline) && ret
                    == Action::Continue
            } else if k == Key::Ctrl('c') {
                post.state == VimState::Normal && untouched(pre, post) && copy_ret(pre, ret)
            } else if k == Key::Char('y') {
                post.state == VimState::Normal && yank_post(pre, post) && ret == Action::Continue
            } else if k == Key::Char('p') {
                post.state == VimState::Normal && paste_post(pre, post, Some(Movement::Right))
                    && ret == Action::Continue
            } else if k == Key::Char('P') {
                post.state == VimState::Normal && paste_post(pre, post, Some(Movement::Left))
                    && ret == Action::Continue
            } else if k == Key::Char('u') {
                post.state == VimState::Normal && undo_post(pre, post) && ret == Action::Continue
            } else if k == Key::Ctrl('r') {
                post.state == VimState::Normal && redo_post(pre, post) && ret == Action::Continue
            } else if k == Key::Esc {
                post.state == VimState::Normal && to_normal_post(pre, post) && ret
                    == Action::Continue
            } else {
                post.state == VimState::Normal && untouched(pre, post) && ret == Action::Continue
            }
        },
    }
}

/// One key in Insert mode.
pub open spec fn insert_step(
    pre: Controller,
    m: InputStateMachine,
    post: Controller,
    key: Key,
    ret: Action,
) -> bool {
    let k = norm_key(key);
    if machine_initial(m) {
        match direction_of_key(k) {
            Some(d) => {
                if k matches Key::Char(_) {
                    // `hjkl` are not movement keys while inserting
                    insert_char_step(pre, m, post, post.state, k, ret)
                } else {
                    post.state == VimState::Insert(m) && move_post(pre, post, d) && ret
                        == Action::Continue
                }
            },
            None => {
                if k == Key::Backspace {
                    post.state == VimState::Insert(m) && delete_post(pre, post, Some(Movement::Left))
                        && ret == Action::Continue
                } else if k == Key::Delete {
                    post.state == VimState::Insert(m) && delete_post(
                        pre,
                        post,
                        Some(Movement::Right),
                    ) && ret == Action::Continue
                } else if k == Key::Insert {
                    (post.state matches VimState::Replace(m2, many) && fresh_machine(m2, post.mode)
                        && many) && to_replace_post(pre, post) && ret == Action::Continue
                } else if k == Key::Ctrl('v') {
                    post.state == VimState::Insert(m) && untouched(pre, post) && ret
                        == Action::PasteFromClipboard
                } else if k == Key::Esc {
                    post.state == VimState::Normal && to_normal_post(pre, post) && ret
                        == Action::Continue
                } else {
                    insert_char_step(pre, m, post, post.state, k, ret)
                }
            },
        }
    } else {
        if k == Key::Esc {
            post.state == VimState::Normal && to_normal_post(pre, post) && ret == Action::Continue
        } else {
            insert_char_step(pre, m, post, post.state, k, ret)
        }
    }
}

/// A possibly-composing character in Insert mode: a valid character
/// advances the machine, completion commits the byte, a tab toggles the
/// entry mode, anything else changes nothing.
pub open spec fn insert_char_step(
    pre: Controller,
    m: InputStateMachine,
    post: Controller,
    next: VimState,
    k: Key,
    ret: Action,
) -> bool {
    match k {
        Key::Char(a) => {
            if crate::vim::valid_input_spec(m.mode, a) {
                match m.state {
                    InputState::Incomplete(t) => match crate::vim::entry_result(
                        m.mode,
                        t@.push(a),
                    ) {
                        Some(b) => (next matches VimState::Insert(m2) && fresh_machine(
                            m2,
                            post.mode,
                        )) && byte_post(pre, post, b) && ret == Action::Continue,
                        None => (next matches VimState::Insert(m2) && m2.mode == m.mode && (
                        m2.state matches InputState::Incomplete(t2) && t2@ == t@.push(a)))
                            && untouched(pre, post) && ret == Action::Continue,
                    },
                    InputState::Done(b) => (next matches VimState::Insert(m2) && fresh_machine(
                        m2,
                        post.mode,
                    )) && byte_post(pre, post, b) && ret == Action::Continue,
                }
            } else if a == '\t' && machine_initial(m) {
                (next matches VimState::Insert(m2) && fresh_machine(m2, post.mode))
                    && switch_post(pre, post, None) && ret == Action::Continue
            } else {
                next == VimState::Insert(m) && untouched(pre, post) && ret
                    == Action::Continue
            }
        },
        _ => next == VimState::Insert(m) && untouched(pre, post) && ret == Action::Continue,
    }
}

/// One key in Replace mode.
pub open spec fn replace_step(
    pre: Controller,
    m: InputStateMachine,
    many: bool,
    post: Controller,
    key: Key,
    ret: Action,
) -> bool {
    let k = norm_key(key);
    if machine_initial(m) {
        if (direction_of_key(k) matches Some(_)) && many {
            post.state == VimState::Replace(m, many) && move_post(
                pre,
                post,
                direction_of_key(k).unwrap(),
            ) && ret == Action::Continue
        } else if k == Key::Backspace {
            post.state == VimState::Replace(m, many) && move_post(pre, post, Direction::Left)
                && ret == Action::Continue
        } else if k == Key::Esc {
            post.state == VimState::Normal && to_normal_post(pre, post) && ret == Action::Continue
        } else {
            replace_char_step(pre, m, many, post, post.state, k, ret)
        }
    } else {
        if k == Key::Esc {
            post.state == VimState::Normal && to_normal_post(pre, post) && ret == Action::Continue
        } else {
            replace_char_step(pre, m, many, post, post.state, k, ret)
        }
    }
}

/// A possibly-composing character in Replace mode.
pub open spec fn replace_char_step(
    pre: Controller,
    m: InputStateMachine,
    many: bool,
    post: Controller,
    next: VimState,
    k: Key,
    ret: Action,
) -> bool {
    match k {
        Key::Char(a) => {
            if crate::vim::valid_input_spec(m.mode, a) {
                match m.state {
                    InputState::Incomplete(t) => match crate::vim::entry_result(
                        m.mode,
                        t@.push(a),
                    ) {
                        Some(b) => {
                            if many {
                                (next matches VimState::Replace(m2, many2) && fresh_machine(
                                    m2,
                                    post.mode,
                                ) && many2) && byte_then_right_post(pre, post, b) && ret
                                    == Action::Continue
                            } else {
                                next == VimState::Normal && byte_then_normal_post(
                                    pre,
                                    post,
                                    b,
                                ) && ret == Action::Continue
                            }
                        },
                        None => (next matches VimState::Replace(m2, many2) && m2.mode
                            == m.mode && many2 == many && (m2.state
                            matches InputState::Incomplete(t2) && t2@ == t@.push(a))) && untouched(
                            pre,
                            post,
                        ) && ret == Action::Continue,
                    },
                    InputState::Done(b) => {
                        if many {
                            (next matches VimState::Replace(m2, many2) && fresh_machine(
                                m2,
                                post.mode,
                            ) && many2) && byte_then_right_post(pre, post, b) && ret
                                == Action::Continue
                        } else {
                            next == VimState::Normal && byte_then_normal_post(pre, post, b) && ret
                                == Action::Continue
                        }
                    },
                }
            } else if a == '\t' && machine_initial(m) {
                (next matches VimState::Replace(m2, many2) && fresh_machine(m2, post.mode)
                    && many2 == many) && switch_post(pre, post, None) && ret == Action::Continue
            } else {
                next == VimState::Replace(m, many) && untouched(pre, post) && ret
                    == Action::Continue
            }
        },
        _ => next == VimState::Replace(m, many) && untouched(pre, post) && ret
            == Action::Continue,
    }
}

/// One key in Visual mode.
pub open spec fn visual_step(pre: Controller, post: Controller, key: Key, ret: Action) -> bool {
    let k = norm_key(key);
    match direction_of_key(k) {
        Some(d) => post.state == VimState::Visual && move_post(pre, post, d) && ret
            == Action::Continue,
        None => {
            if k == Key::Char('y') {
                post.state == VimState::Normal && yank_post(pre, post) && ret == Action::Continue
            } else if k == Key::Ctrl('c') {
                post.state == VimState::Visual && untouched(pre, post) && copy_ret(pre, ret)
            } else if k == Key::Char('o') {
                post.state == VimState::Visual && move_post(pre, post, Direction::Revert) && ret
                    == Action::Continue
            } else if k == Key::Char('x') || k == Key::Char('d') {
                post.state == VimState::Normal && visual_delete_post(pre, post) && ret
                    == Action::Continue
            } else if k == Key::Esc {
                post.state == VimState::Normal && to_normal_post(pre, post) && ret
                    == Action::Continue
            } else {
                post.state == VimState::Visual && untouched(pre, post) && ret == Action::Continue
            }
        },
    }
}

/// One key in Command mode.
pub open spec fn command_step(
    pre: Controller,
    cmd: String,
    post: Controller,
    key: Key,
    ret: Action,
) -> bool {
    let k = norm_key(key);
    if k == Key::Char('\n') {
        post.state == VimState::Normal && command_exec_post(pre, post, cmd@, ret)
    } else if k == Key::Backspace {
        let t2 = if cmd@.len() == 0 {
            cmd@
        } else {
            cmd@.drop_last()
        };
        (post.state matches VimState::Command(c2) && c2@ == t2) && post.status_body@ == ":"@ + t2
            && post.model == pre.model && post.viewport == pre.viewport && post.yank == pre.yank
            && post.mode == pre.mode && ret == Action::Continue
    } else if k matches Key::Char(c) {
        let t2 = cmd@.push(norm_char(k));
        (post.state matches VimState::Command(c2) && c2@ == t2) && post.status_body@ == ":"@ + t2
            && post.model == pre.model && post.viewport == pre.viewport && post.yank == pre.yank
            && post.mode == pre.mode && ret == Action::Continue
    } else if k == Key::Esc {
        post.state == VimState::Normal && post.status_body@ == Seq::<char>::empty() && post.model
            == pre.model && post.viewport == pre.viewport && post.yank == pre.yank && post.mode
            == pre.mode && ret == Action::Continue
    } else {
        (post.state matches VimState::Command(c2) && c2@ == cmd@) && untouched(pre, post) && ret
            == Action::Continue
    }
}

/// The character a key carries (for keys known to carry one).
pub open spec fn norm_char(k: Key) -> char {
    match k {
        Key::Char(c) => c,
        _ => ' ',
    }
}

impl Controller {
    /// Dispatches one key through the modal state machine, applying its
    /// editing effect and landing in a valid state whatever the key.
    #[verifier::rlimit(100)]
    pub fn transition(&mut self, key: Key) -> (ret: Action)
        requires
            old(self).wf(),
        ensures
            final(self).wf(),
            final(self).model.path@ == old(self).model.path@,
            final(self).status_head@ == old(self).status_head@,
            (old(self).state matches VimState::Normal ==> normal_step(
                *old(self),
                *final(self),
                key,
                ret,
            )),
            (old(self).state matches VimState::Insert(m) ==> insert_step(
                *old(self),
                m,
                *final(self),
                key,
                ret,
            )),
            (old(self).state matches VimState::Replace(m, many) ==> replace_step(
                *old(self),
                m,
                many,
                *final(self),
                key,
                ret,
            )),
            (old(self).state matches VimState::Visual ==> visual_step(
                *old(self),
                *final(self),
                key,
                ret,
            )),
            (old(self).state matches VimState::Command(cmd) ==> command_step(
                *old(self),
                cmd,
                *final(self),
                key,
                ret,
            )),
    {
        let key = if key == Key::Alt('\u{1b}') {
            Key::Esc
        } else {
            key
        };

        let mut state = VimState::Normal;
        core::mem::swap(&mut state, &mut self.state);
        let mut run = Action::Continue;

        let next = match state {
            VimState::Normal => {
                match Direction::try_from(key) {
                    Ok(d) => {
                        run = self.update(Msg::Move(d));
                        VimState::Normal
                    },
                    Err(_) => {
                        if key == Key::Backspace {
                            run = self.update(Msg::Move(Direction::Left));
                            VimState::Normal
                        } else if key == Key::Char('\t') {
                            run = self.update(Msg::Switch(None));
                            VimState::Normal
                        } else if key == Key::Char('a') {
                            run = self.update(Msg::ToAppend(None));
                            VimState::Insert(InputStateMachine::new(self.mode))
                        } else if key == Key::Char('i') {
                            run = self.update(Msg::ToInsert(None));
                            VimState::Insert(InputStateMachine::new(self.mode))
                        } else if key == Key::Delete || key == Key::Char('x') {
                            run = self.update(Msg::Delete(Some(Movement::Right)));
                            VimState::Normal
                        } else if key == Key::Char('r') {
                            run = self.update(Msg::ToReplace);
                            VimState::Replace(InputStateMachine::new(self.mode), false)
                        } else if key == Key::Char('R') {
                            run = self.update(Msg::ToReplace);
                            VimState::Replace(InputStateMachine::new(self.mode), true)
                        } else if key == Key::Char('v') {
                            run = self.update(Msg::ToVisual);
                            VimState::Visual
                        } else if key == Key::Char(':') {
                            run = self.update(Msg::ToCommand);
                            VimState::Command(String::new())
                        } else if key == Key::Char('\n') {
                            run = self.update(Msg::Move(Direction::Newline));
                            VimState::Normal
                        } else if key == Key::Ctrl('c') {
                            run = self.update(Msg::ClipboardCopy);
                            VimState::Normal
                        } else if key == Key::Char('y') {
                            run = self.update(Msg::Yank);
                            VimState::Normal
                        } else if key == Key::Char('p') {
                            run = self.update(Msg::Paste(Some(Movement::Right)));
                            VimState::Normal
                        } else if key == Key::Char('P') {
                            run = self.update(Msg::Paste(Some(Movement::Left)));
                            VimState::Normal
                        } else if key == Key::Char('u') {
                            run = self.update(Msg::Undo);
                            VimState::Normal
                        } else if key == Key::Ctrl('r') {
                            run = self.update(Msg::Redo);
                            VimState::Normal
                        } else if key == Key::Esc {
                            run = self.update(Msg::ToNormal);
                            VimState::Normal
                        } else {
                            VimState::Normal
                        }
                    },
                }
            },
            VimState::Insert(mut machine) => {
                if machine.initial() {
                    if key == Key::Left {
                        run = self.update(Msg::Move(Direction::Left));
                        VimState::Insert(machine)
                    } else if key == Key::Right {
                        run = self.update(Msg::Move(Direction::Right));
                        VimState::Insert(machine)
                    } else if key == Key::Up {
                        run = self.update(Msg::Move(Direction::Up));
                        VimState::Insert(machine)
                    } else if key == Key::Down {
                        run = self.update(Msg::Move(Direction::Down));
                        VimState::Insert(machine)
                    } else if key == Key::Backspace {
                        run = self.update(Msg::Delete(Some(Movement::Left)));
                        VimState::Insert(machine)
                    } else if key == Key::Delete {
                        run = self.update(Msg::Delete(Some(Movement::Right)));
                        VimState::Insert(machine)
                    } else if key == Key::Insert {
                        run = self.update(Msg::ToReplace);
                        VimState::Replace(InputStateMachine::new(self.mode), true)
                    } else if key == Key::Ctrl('v') {
                        run = self.update(Msg::ClipboardPaste);
                        VimState::Insert(machine)
                    } else if key == Key::Esc {
                        run = self.update(Msg::ToNormal);
                        VimState::Normal
                    } else {
                        self.insert_compose(machine, key, &mut run)
                    }
                } else {
                    if key == Key::Esc {
                        run = self.update(Msg::ToNormal);
                        VimState::Normal
                    } else {
                        self.insert_compose(machine, key, &mut run)
                    }
                }
            },
            VimState::Replace(mut machine, many) => {
                let is_move = match Direction::try_from(key) {
                    Ok(_) => true,
                    Err(_) => false,
                };
                if machine.initial() && is_move && many {
                    let d = match Direction::try_from(key) {
                        Ok(d) => d,
                        Err(_) => Direction::Left,
                    };
                    run = self.update(Msg::Move(d));
                    VimState::Replace(machine, many)
                } else if machine.initial() && key == Key::Backspace {
                    run = self.update(Msg::Move(Direction::Left));
                    VimState::Replace(machine, many)
                } else if key == Key::Esc {
                    run = self.update(Msg::ToNormal);
                    VimState::Normal
                } else {
                    self.replace_compose(machine, many, key, &mut run)
                }
            },
            VimState::Visual => {
                match Direction::try_from(key) {
                    Ok(d) => {
                        run = self.update(Msg::Move(d));
                        VimState::Visual
                    },
                    Err(_) => {
                        if key == Key::Char('y') {
                            run = self.update(Msg::Yank);
                            VimState::Normal
                        } else if key == Key::Ctrl('c') {
                            run = self.update(Msg::ClipboardCopy);
                            VimState::Visual
                        } else if key == Key::Char('o') {
                            run = self.update(Msg::Move(Direction::Revert));
                            VimState::Visual
                        } else if key == Key::Char('x') || key == Key::Char('d') {
                            run = self.update(Msg::Delete(None));
                            self.update(Msg::ToNormal);
                            VimState::Normal
                        } else if key == Key::Esc {
                            run = self.update(Msg::ToNormal);
                            VimState::Normal
                        } else {
                            VimState::Visual
                        }
                    },
                }
            },
            VimState::Command(mut cmd) => {
                if key == Key::Char('\n') {
                    match Msg::parse(cmd.as_str()) {
                        Ok(m) => {
                            run = self.update(m);
                        },
                        Err(e) => {
                            run = self.update(Msg::Show(String::from_str(e)));
                        },
                    }
                    VimState::Normal
                } else if key == Key::Backspace {
                    pop_char(&mut cmd);
                    let shown = String::from_str(":").concat(cmd.as_str());
                    run = self.update(Msg::Show(shown));
                    VimState::Command(cmd)
                } else if key == Key::Esc {
                    run = self.update(Msg::Show(String::new()));
                    VimState::Normal
                } else {
                    match key {
                        Key::Char(c) => {
                            push_char(&mut cmd, c);
                            let shown = String::from_str(":").concat(cmd.as_str());
                            run = self.update(Msg::Show(shown));
                            VimState::Command(cmd)
                        },
                        _ => VimState::Command(cmd),
                    }
                }
            },
        };

        self.state = next;
        run
    }

    /// Feeds a possibly-composing key to an Insert-mode entry machine.
    fn insert_compose(&mut self, machine: InputStateMachine, key: Key, run: &mut Action) -> (next:
        VimState)
        requires
            old(self).wf(),
            machine.wf(),
            norm_key(key) == key,
            key != Key::Esc,
            *old(run) == Action::Continue,
        ensures
            final(self).wf(),
            final(self).model.path@ == old(self).model.path@,
            final(self).status_head@ == old(self).status_head@,
            final(self).state == old(self).state,
            insert_char_step(*old(self), machine, *final(self), next, key, *final(run)),
    {
        let mut machine = machine;
        match key {
            Key::Char(a) => {
                if machine.valid_input(a) {
                    machine.transition(key);
                    let done = match &machine.state {
                        InputState::Done(b) => Some(*b),
                        InputState::Incomplete(_) => None,
                    };
                    match done {
                        Some(b) => {
                            *run = self.update(Msg::Byte(b));
                            VimState::Insert(InputStateMachine::new(self.mode))
                        },
                        None => VimState::Insert(machine),
                    }
                } else if a == '\t' && machine.initial() {
                    *run = self.update(Msg::Switch(None));
                    VimState::Insert(InputStateMachine::new(self.mode))
                } else {
                    VimState::Insert(machine)
                }
            },
            _ => VimState::Insert(machine),
        }
    }

    /// Feeds a possibly-composing key to a Replace-mode entry machine.
    fn replace_compose(
        &mut self,
        machine: InputStateMachine,
        many: bool,
        key: Key,
        run: &mut Action,
    ) -> (next: VimState)
        requires
            old(self).wf(),
            machine.wf(),
            norm_key(key) == key,
            key != Key::Esc,
            *old(run) == Action::Continue,
        ensures
            final(self).wf(),
            final(self).model.path@ == old(self).model.path@,
            final(self).status_head@ == old(self).status_head@,
            final(self).state == old(self).state,
            replace_char_step(*old(self), machine, many, *final(self), next, key, *final(run)),
    {
        let mut machine = machine;
        match key {
            Key::Char(a) => {
                if machine.valid_input(a) {
                    machine.transition(key);
                    let done = match &machine.state {
                        InputState::Done(b) => Some(*b),
                        InputState::Incomplete(_) => None,
                    };
                    match done {
                        Some(b) => {
                            *run = self.update(Msg::Byte(b));
                            if many {
                                self.update(Msg::Move(Direction::Right));
                                VimState::Replace(InputStateMachine::new(self.mode), many)
                            } else {
                                self.update(Msg::ToNormal);
                                VimState::Normal
                            }
                        },
                        None => VimState::Replace(machine, many),
                    }
                } else if a == '\t' && machine.initial() {
                    *run = self.update(Msg::Switch(None));
                    VimState::Replace(InputStateMachine::new(self.mode), many)
                } else {
                    VimState::Replace(machine, many)
                }
            },
            _ => VimState::Replace(machine, many),
        }
    }
}

fn grow_bound(max: usize) -> (ret: usize)
    ensures
        ret == sat_inc(max),
{
    if max == usize::MAX {
        max
    } else {
        max + 1
    }
}

} // verus!
