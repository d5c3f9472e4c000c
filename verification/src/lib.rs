//! Core engine of a modal (vim-style) terminal hex editor.
//!
//! The crate verifies the interactive editing engine: the bounded cursor
//! model, the snapshot-based undo/redo history, the byte-buffer splice
//! operation, the byte-entry sub-state-machine, the modal key dispatch,
//! and the viewport scrolling / selection marking arithmetic that the
//! renderer depends on.  Terminal drawing, file access and the clipboard
//! context live outside the library and talk to it through plain values.

pub mod controller;
pub mod history;
pub mod model;
pub mod utils;
pub mod view;
pub mod vim;

use vstd::prelude::*;

verus! {

/// Command-line arguments of the editor: the file to open.
pub struct Args {
    pub file: String,
}

/// Printable rendering of a byte in the ASCII column: graphic ASCII
/// characters print as themselves, everything else as `'.'`.
pub open spec fn printable_char(b: u8) -> char {
    if 32 <= b && b <= 126 {
        b as char
    } else {
        '.'
    }
}

/// Conversion of a byte to the character shown in the ASCII column.
pub trait Ascii {
    fn to_printable(self) -> char;
}

impl Ascii for u8 {
    fn to_printable(self) -> (c: char)
        ensures
            c == printable_char(self),
    {
        if 32 <= self && self <= 126 {
            self as char
        } else {
            '.'
        }
    }
}

/// An unsigned counter clamped to `[0, max]`.
///
/// Every operation reclamps, so `value <= max` holds after any sequence of
/// operations, whatever the starting point.
#[derive(Clone, Copy, Debug, PartialEq, Eq, Structural)]
pub struct UsizeMax {
    pub value: usize,
    pub max: usize,
}

impl UsizeMax {
    /// The clamping invariant; every operation below establishes it.
    pub open spec fn wf(self) -> bool {
        self.value <= self.max
    }

    pub fn new(value: usize, max: usize) -> (ret: UsizeMax)
        ensures
            ret.max == max,
            ret.value == vstd::math::min(value as int, max as int),
            ret.wf(),
    {
        let mut ret = UsizeMax { value, max };
        ret.adjust();
        ret
    }

    /// Reads the clamped value.
    pub fn get(&self) -> (ret: usize)
        ensures
            ret == self.value,
    {
        self.value
    }

    /// Reads the value, clamping on the way out as the conversion to a
    /// plain integer always did.
    pub fn get_clamped(&self) -> (ret: usize)
        ensures
            ret == vstd::math::min(self.value as int, self.max as int),
    {
        if self.value <= self.max {
            self.value
        } else {
            self.max
        }
    }

    pub fn set_value(&mut self, new_value: usize)
        ensures
            final(self).max == old(self).max,
            final(self).value == vstd::math::min(new_value as int, old(self).max as int),
            final(self).wf(),
    {
        self.value = new_value;
        self.adjust();
    }

    pub fn set_maximum(&mut self, max: usize)
        ensures
            final(self).max == max,
            final(self).value == vstd::math::min(old(self).value as int, max as int),
            final(self).wf(),
    {
        self.max = max;
        self.adjust();
    }

    pub fn get_maximum(&self) -> (ret: usize)
        ensures
            ret == self.max,
    {
        self.max
    }

    fn adjust(&mut self)
        ensures
            final(self).max == old(self).max,
            final(self).value == vstd::math::min(old(self).value as int, old(self).max as int),
            final(self).wf(),
    {
        if self.value > self.max {
            self.value = self.max;
        }
    }

    /// Saturating addition followed by the clamp.
    pub fn add(self, other: usize) -> (ret: UsizeMax)
        ensures
            ret.max == self.max,
            ret.value == vstd::math::min(self.value + other, self.max as int),
            ret.wf(),
    {
        let mut ret = self;
        ret.add_assign(other);
        ret
    }

    pub fn add_assign(&mut self, other: usize)
        ensures
            final(self).max == old(self).max,
            final(self).value == vstd::math::min(old(self).value + other, old(self).max as int),
            final(self).wf(),
    {
        self.value = self.value.saturating_add(other);
        self.adjust();
    }

    /// Saturating subtraction followed by the clamp.
    pub fn sub(self, other: usize) -> (ret: UsizeMax)
        ensures
            ret.max == self.max,
            ret.value == vstd::math::min(
                vstd::math::max(self.value - other, 0),
                self.max as int,
            ),
            ret.wf(),
    {
        let mut ret = self;
        ret.sub_assign(other);
        ret
    }

    pub fn sub_assign(&mut self, other: usize)
        ensures
            final(self).max == old(self).max,
            final(self).value == vstd::math::min(
                vstd::math::max(old(self).value - other, 0),
                old(self).max as int,
            ),
            final(self).wf(),
    {
        self.value = self.value.saturating_sub(other);
        self.adjust();
    }

    /// Remainder followed by the clamp; the divisor must not be zero.
    pub fn rem(self, other: usize) -> (ret: UsizeMax)
        requires
            other > 0,
        ensures
            ret.max == self.max,
            ret.value == vstd::math::min((self.value as int) % (other as int), self.max as int),
            ret.wf(),
    {
        let mut ret = self;
        ret.rem_assign(other);
        ret
    }

    pub fn rem_assign(&mut self, other: usize)
        requires
            other > 0,
        ensures
            final(self).max == old(self).max,
            final(self).value == vstd::math::min(
                (old(self).value as int) % (other as int),
                old(self).max as int,
            ),
            final(self).wf(),
    {
        self.value = self.value % other;
        self.adjust();
    }
}

/// The cursor, one modal variant at a time.
///
/// `Index` sits between bytes (it may equal the buffer length); `Offset`
/// and `Replace` sit on a byte; `Visual` carries the two endpoints of a
/// selection, in either order, the second being the active one.
#[derive(Clone, Copy, Debug, PartialEq, Eq, Structural)]
pub enum Caret {
    Index(UsizeMax),
    Offset(UsizeMax),
    Replace(UsizeMax),
    Visual(UsizeMax, UsizeMax),
}

} // verus!
