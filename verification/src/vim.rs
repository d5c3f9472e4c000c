//! Key events, the byte-entry sub-state-machine and the command
//! mini-language.

use crate::controller::{Direction, Msg};
use crate::utils::{hex_byte, hex_value_char, is_hex_digit, is_hex_digit_char, is_space, is_space_char, pop_char, push_char};
use vstd::prelude::*;
use vstd::string::StrSliceExecFns;
use vstd::string::StringExecFns;

verus! {

/// A key event, as the terminal reports it.
#[derive(Clone, Copy, Debug, PartialEq, Eq, Structural)]
pub enum Key {
    Backspace,
    Left,
    Right,
    Up,
    Down,
    Home,
    End,
    PageUp,
    PageDown,
    BackTab,
    Delete,
    Insert,
    F(u8),
    Char(char),
    Alt(char),
    Ctrl(char),
    Null,
    Esc,
}

/// How typed characters compose a byte: as two hex digits or as one
/// ASCII character.
#[derive(Clone, Copy, Debug, PartialEq, Eq, Structural)]
pub enum InputMode {
    Hex,
    Ascii,
}

/// The composition state: a finished byte, or the characters typed so
/// far.
#[derive(Clone, Debug, PartialEq)]
pub enum InputState {
    Done(u8),
    Incomplete(String),
}

/// Composes one byte from keystrokes; once `Done`, it stays inert until
/// replaced by a fresh machine.
#[derive(Clone, Debug)]
pub struct InputStateMachine {
    pub mode: InputMode,
    pub state: InputState,
}

/// Whether `c` is a graphic ASCII character.
pub open spec fn is_graphic(c: char) -> bool {
    33 <= c as u32 <= 126
}

/// Whether `c` may be typed next in the given mode: a hex digit in hex
/// mode, a graphic ASCII character in ASCII mode.
pub open spec fn valid_input_spec(mode: InputMode, c: char) -> bool {
    match mode {
        InputMode::Hex => is_hex_digit(c),
        InputMode::Ascii => is_graphic(c),
    }
}

/// The byte a full composition denotes, or `None` while characters are
/// still missing.
pub open spec fn entry_result(mode: InputMode, text: Seq<char>) -> Option<u8> {
    match mode {
        InputMode::Hex => if text.len() == 2 {
            Some(hex_byte(text[0], text[1]))
        } else {
            None
        },
        InputMode::Ascii => if text.len() == 1 {
            Some(((text[0] as u32) as u8))
        } else {
            None
        },
    }
}

/// How many characters one byte takes to compose.
pub open spec fn required_len(mode: InputMode) -> nat {
    match mode {
        InputMode::Hex => 2,
        InputMode::Ascii => 1,
    }
}

/// How one key advances the composition: Backspace drops the last
/// character, an accepted character is appended and may finish the
/// byte, anything else changes nothing; a finished machine is inert.
pub open spec fn input_step(pre: InputStateMachine, post: InputStateMachine, key: Key) -> bool {
    &&& post.mode == pre.mode
    &&& match pre.state {
        InputState::Done(b) => post.state matches InputState::Done(b2) && b2 == b,
        InputState::Incomplete(t) => match key {
            Key::Backspace => post.state matches InputState::Incomplete(t2) && t2@ == (if t@.len()
                == 0 {
                t@
            } else {
                t@.drop_last()
            }),
            Key::Char(c) => {
                if valid_input_spec(pre.mode, c) {
                    match entry_result(pre.mode, t@.push(c)) {
                        Some(b) => post.state matches InputState::Done(b2) && b2 == b,
                        None => post.state matches InputState::Incomplete(t2) && t2@ == t@.push(c),
                    }
                } else {
                    post.state matches InputState::Incomplete(t2) && t2@ == t@
                }
            },
            _ => post.state matches InputState::Incomplete(t2) && t2@ == t@,
        },
    }
}

impl InputStateMachine {
    /// A machine only ever accumulates characters it has validated, and
    /// never more than a byte takes.
    pub open spec fn wf(self) -> bool {
        match self.state {
            InputState::Done(_) => true,
            InputState::Incomplete(t) => {
                &&& forall|i: int| 0 <= i < t@.len() ==> valid_input_spec(self.mode, t@[i])
                &&& t@.len() < required_len(self.mode)
            },
        }
    }

    pub fn new(mode: InputMode) -> (ret: InputStateMachine)
        ensures
            ret.mode == mode,
            ret.state matches InputState::Incomplete(t) && t@ == Seq::<char>::empty(),
            ret.wf(),
    {
        InputStateMachine { mode, state: InputState::Incomplete(String::new()) }
    }

    /// Whether `c` would be accepted next.
    pub fn valid_input(&self, c: char) -> (ret: bool)
        ensures
            ret == valid_input_spec(self.mode, c),
    {
        match self.mode {
            InputMode::Hex => is_hex_digit_char(c),
            InputMode::Ascii => {
                let u = c as u32;
                33 <= u && u <= 126
            },
        }
    }

    /// Whether composition has not started yet (a finished machine also
    /// counts as initial).
    pub fn initial(&self) -> (ret: bool)
        ensures
            ret == match self.state {
                InputState::Incomplete(t) => t@.len() == 0,
                InputState::Done(_) => true,
            },
    {
        match &self.state {
            InputState::Incomplete(text) => text.as_str().is_empty(),
            InputState::Done(_) => true,
        }
    }

    /// Advances the composition by one key.
    pub fn transition(&mut self, key: Key)
        requires
            old(self).wf(),
        ensures
            input_step(*old(self), *final(self), key),
            final(self).wf(),
    {
        let mode = self.mode;
        let mut done_byte: Option<u8> = None;
        match &mut self.state {
            InputState::Done(_) => {},
            InputState::Incomplete(text) => {
                match key {
                    Key::Backspace => {
                        pop_char(text);
                    },
                    Key::Char(c) => {
                        let accepted = match mode {
                            InputMode::Hex => is_hex_digit_char(c),
                            InputMode::Ascii => {
                                let u = c as u32;
                                33 <= u && u <= 126
                            },
                        };
                        if accepted {
                            push_char(text, c);
                            match mode {
                                InputMode::Hex => {
                                    if text.as_str().unicode_len() == 2 {
                                        let hi = text.as_str().get_char(0);
                                        let lo = text.as_str().get_char(1);
                                        done_byte = Some(hex_value_char(hi) * 16 + hex_value_char(
                                            lo,
                                        ));
                                    }
                                },
                                InputMode::Ascii => {
                                    if text.as_str().unicode_len() == 1 {
                                        let c0 = text.as_str().get_char(0);
                                        done_byte = Some((c0 as u32) as u8);
                                    }
                                },
                            }
                        }
                    },
                    _ => {},
                }
            },
        }
        if let Some(b) = done_byte {
            self.state = InputState::Done(b);
        }
    }
}

/// The controller's persistent state between key events.
#[derive(Clone)]
pub enum VimState {
    Normal,
    Insert(InputStateMachine),
    Replace(InputStateMachine, bool),
    Visual,
    Command(String),
}

/// The value a digit character carries in radix numerals: `0`-`9`,
/// then letters of either case; ninety-nine marks everything else.
pub open spec fn digit_of(c: char) -> int {
    if 48 <= c as u32 <= 57 {
        c as u32 - 48
    } else if 97 <= c as u32 <= 122 {
        c as u32 - 87
    } else if 65 <= c as u32 <= 90 {
        c as u32 - 55
    } else {
        99
    }
}

fn digit_char(c: char) -> (ret: u8)
    ensures
        ret as int == digit_of(c),
{
    let u = c as u32;
    if 48 <= u && u <= 57 {
        (u - 48) as u8
    } else if 97 <= u && u <= 122 {
        (u - 87) as u8
    } else if 65 <= u && u <= 90 {
        (u - 55) as u8
    } else {
        99
    }
}

/// A numeral may carry one leading plus sign.
pub open spec fn strip_plus(s: Seq<char>) -> Seq<char> {
    if s.len() > 0 && s[0] == '+' {
        s.drop_first()
    } else {
        s
    }
}

/// Whether `s` is a numeral in the given base: after an optional plus
/// sign, at least one digit, every digit below the base.
pub open spec fn is_numeral(s: Seq<char>, base: int) -> bool {
    let d = strip_plus(s);
    &&& d.len() > 0
    &&& forall|i: int| 0 <= i < d.len() ==> digit_of(d[i]) < base
}

/// The value of a digit string in the given base.
pub open spec fn numeral_value(d: Seq<char>, base: int) -> int
    decreases d.len(),
{
    if d.len() == 0 {
        0
    } else {
        numeral_value(d.drop_last(), base) * base + digit_of(d.last())
    }
}

proof fn lemma_numeral_nonneg(d: Seq<char>, base: int)
    requires
        base >= 1,
    ensures
        numeral_value(d, base) >= 0,
    decreases d.len(),
{
    if d.len() > 0 {
        lemma_numeral_nonneg(d.drop_last(), base);
        assert(numeral_value(d.drop_last(), base) * base >= 0) by (nonlinear_arith)
            requires
                numeral_value(d.drop_last(), base) >= 0,
                base >= 1,
        ;
    }
}

proof fn lemma_numeral_prefix_le(d: Seq<char>, k: int, base: int)
    requires
        0 <= k <= d.len(),
        base >= 1,
    ensures
        numeral_value(d.subrange(0, k), base) <= numeral_value(d, base),
    decreases d.len() - k,
{
    if k == d.len() {
        assert(d.subrange(0, k) =~= d);
    } else {
        let p = d.subrange(0, k);
        let q = d.subrange(0, k + 1);
        assert(q.drop_last() =~= p);
        lemma_numeral_nonneg(p, base);
        assert(numeral_value(p, base) * base >= numeral_value(p, base)) by (nonlinear_arith)
            requires
                numeral_value(p, base) >= 0,
                base >= 1,
        ;
        assert(numeral_value(p, base) <= numeral_value(q, base));
        lemma_numeral_prefix_le(d, k + 1, base);
    }
}

/// Whether two strings hold the same characters.
fn str_eq(a: &str, b: &str) -> (ret: bool)
    ensures
        ret == (a@ == b@),
{
    let n = a.unicode_len();
    if n != b.unicode_len() {
        proof {
            if a@ == b@ {
                assert(a@.len() == b@.len());
            }
        }
        return false;
    }
    let mut i: usize = 0;
    while i < n
        invariant
            i <= n,
            n == a@.len(),
            n == b@.len(),
            forall|j: int| 0 <= j < i ==> a@[j] == b@[j],
        decreases n - i,
    {
        if a.get_char(i) != b.get_char(i) {
            return false;
        }
        i = i + 1;
    }
    proof {
        assert(a@ =~= b@);
    }
    true
}

/// `s` without its leading whitespace.
pub open spec fn trim_front(s: Seq<char>) -> Seq<char>
    decreases s.len(),
{
    if s.len() > 0 && is_space(s[0]) {
        trim_front(s.drop_first())
    } else {
        s
    }
}

/// `s` without its trailing whitespace.
pub open spec fn trim_back(s: Seq<char>) -> Seq<char>
    decreases s.len(),
{
    if s.len() > 0 && is_space(s.last()) {
        trim_back(s.drop_last())
    } else {
        s
    }
}

/// `s` without leading and trailing whitespace.
pub open spec fn trimmed(s: Seq<char>) -> Seq<char> {
    trim_back(trim_front(s))
}

/// Removes leading and trailing whitespace.
fn trim_string(s: &str) -> (ret: String)
    ensures
        ret@ == trimmed(s@),
{
    let len = s.unicode_len();
    proof {
        assert(s@.skip(0) =~= s@);
    }
    let mut lo: usize = 0;
    while lo < len && is_space_char(s.get_char(lo))
        invariant
            lo <= len,
            len == s@.len(),
            trim_front(s@) == trim_front(s@.skip(lo as int)),
        decreases len - lo,
    {
        proof {
            assert(s@.skip(lo as int).drop_first() =~= s@.skip(lo + 1));
        }
        lo = lo + 1;
    }
    proof {
        assert(trim_front(s@) =~= s@.skip(lo as int));
    }
    let mut hi: usize = len;
    while hi > lo && is_space_char(s.get_char(hi - 1))
        invariant
            lo <= hi <= len,
            len == s@.len(),
            trim_back(s@.skip(lo as int)) == trim_back(s@.subrange(lo as int, hi as int)),
        decreases hi,
    {
        proof {
            assert(s@.subrange(lo as int, hi as int).drop_last() =~= s@.subrange(
                lo as int,
                hi - 1,
            ));
        }
        hi = hi - 1;
    }
    proof {
        assert(trim_back(s@.subrange(lo as int, hi as int)) =~= s@.subrange(lo as int, hi as int));
    }
    let out = s.substring_char(lo, hi);
    out.to_owned()
}

/// Reads the numeral in `s` after the first `skip` characters, or
/// nothing where there is no numeral in the base or its value does not
/// fit the machine.
fn parse_offset(s: &str, skip: usize, base: u32) -> (ret: Option<usize>)
    requires
        2 <= base <= 36,
        skip <= s@.len(),
    ensures
        ({
            let body = s@.skip(skip as int);
            let digits = strip_plus(body);
            if is_numeral(body, base as int) && numeral_value(digits, base as int) <= usize::MAX {
                ret matches Some(n) && n == numeral_value(digits, base as int)
            } else {
                ret is None
            }
        }),
{
    let len = s.unicode_len();
    let mut i: usize = skip;
    if i < len && s.get_char(i) == '+' {
        i = i + 1;
    }
    let dstart = i;
    let ghost body = s@.skip(skip as int);
    let ghost digits = strip_plus(body);
    proof {
        if body.len() > 0 && body[0] == '+' {
            assert(digits =~= s@.subrange(dstart as int, len as int));
        } else {
            assert(digits =~= s@.subrange(dstart as int, len as int));
        }
    }
    if i == len {
        return None;
    }
    let mut acc: usize = 0;
    while i < len
        invariant
            2 <= base <= 36,
            skip <= dstart <= i <= len,
            len == s@.len(),
            digits == strip_plus(s@.skip(skip as int)),
            digits == s@.subrange(dstart as int, len as int),
            forall|j: int| dstart <= j < i ==> digit_of(s@[j]) < base,
            acc == numeral_value(s@.subrange(dstart as int, i as int), base as int),
        decreases len - i,
    {
        let c = s.get_char(i);
        let d = digit_char(c);
        if (d as u32) >= base {
            proof {
                let j = i - dstart;
                assert(0 <= j < digits.len());
                assert(digits[j] == s@[i as int]);
                assert(digit_of(digits[j]) == d as int);
                assert(!(digit_of(digits[j]) < base as int));
                assert(!is_numeral(s@.skip(skip as int), base as int));
            }
            return None;
        }
        let ghost prefix = s@.subrange(dstart as int, i as int);
        let ghost prefix1 = s@.subrange(dstart as int, i + 1);
        proof {
            assert(prefix1.drop_last() =~= prefix);
            assert(prefix1.last() == s@[i as int]);
            assert(prefix1 =~= digits.subrange(0, i + 1 - dstart));
            assert(numeral_value(prefix1, base as int) == numeral_value(prefix, base as int) * (
            base as int) + digit_of(s@[i as int]));
            assert(digit_of(s@[i as int]) >= 0);
        }
        let acc2 = match acc.checked_mul(base as usize) {
            Some(v) => v,
            None => {
                proof {
                    lemma_numeral_nonneg(prefix, base as int);
                    assert((acc as int) * (base as int) > usize::MAX);
                    assert(numeral_value(prefix1, base as int) > usize::MAX);
                    lemma_numeral_prefix_le(digits, i + 1 - dstart, base as int);
                    assert(numeral_value(digits, base as int) > usize::MAX);
                }
                return None;
            },
        };
        let acc3 = match acc2.checked_add(d as usize) {
            Some(v) => v,
            None => {
                proof {
                    assert(acc2 == (acc as int) * (base as int));
                    assert(numeral_value(prefix1, base as int) > usize::MAX);
                    lemma_numeral_prefix_le(digits, i + 1 - dstart, base as int);
                    assert(numeral_value(digits, base as int) > usize::MAX);
                }
                return None;
            },
        };
        acc = acc3;
        i = i + 1;
    }
    proof {
        assert(s@.subrange(dstart as int, len as int) =~= digits);
    }
    Some(acc)
}

impl Msg {
    /// Parses the command-mode mini-language: `q`, `q!`, `w`,
    /// `w <path>`, `wq`, `x`, or a jump offset written in decimal or
    /// with a `0b`, `08` or `0x` prefix.
    pub fn parse(cmd: &str) -> (ret: Result<Msg, &'static str>)
        ensures
            ({
                let s = cmd@;
                if s.len() >= 2 && s[0] == 'w' && s[1] == ' ' {
                    ret matches Ok(m) && (m matches Msg::SaveAs(p) && p@ == trimmed(s.skip(2)))
                } else if s == "q"@ {
                    ret matches Ok(m) && m == Msg::Quit
                } else if s == "q!"@ {
                    ret matches Ok(m) && m == Msg::QuitWithoutSaving
                } else if s == "w"@ {
                    ret matches Ok(m) && m == Msg::Save
                } else if s == "wq"@ || s == "x"@ {
                    ret matches Ok(m) && m == Msg::SaveAndQuit
                } else {
                    let skip: int = if s.len() >= 2 && s[0] == '0' && (s[1] == 'b' || s[1] == '8'
                        || s[1] == 'x') {
                        2
                    } else {
                        0
                    };
                    let base: int = if s.len() >= 2 && s[0] == '0' && s[1] == 'b' {
                        2
                    } else if s.len() >= 2 && s[0] == '0' && s[1] == '8' {
                        8
                    } else if s.len() >= 2 && s[0] == '0' && s[1] == 'x' {
                        16
                    } else {
                        10
                    };
                    let body = s.skip(skip);
                    let digits = strip_plus(body);
                    if is_numeral(body, base) && numeral_value(digits, base) <= usize::MAX {
                        ret matches Ok(m) && m == Msg::Move(
                            Direction::Offset(numeral_value(digits, base) as usize),
                        )
                    } else {
                        ret matches Err(e) && e@ == "no such command"@
                    }
                }
            }),
    {
        let len = cmd.unicode_len();
        if len >= 2 && cmd.get_char(0) == 'w' && cmd.get_char(1) == ' ' {
            let rest = cmd.substring_char(2, len);
            proof {
                assert(rest@ =~= cmd@.skip(2));
            }
            let path = trim_string(rest);
            return Ok(Msg::SaveAs(path));
        }

        if str_eq(cmd, "q") {
            return Ok(Msg::Quit);
        }
        if str_eq(cmd, "q!") {
            return Ok(Msg::QuitWithoutSaving);
        }
        if str_eq(cmd, "w") {
            return Ok(Msg::Save);
        }
        if str_eq(cmd, "wq") || str_eq(cmd, "x") {
            return Ok(Msg::SaveAndQuit);
        }

        let (skip, base): (usize, u32) = if len >= 2 && cmd.get_char(0) == '0' && cmd.get_char(1)
            == 'b' {
            (2, 2)
        } else if len >= 2 && cmd.get_char(0) == '0' && cmd.get_char(1) == '8' {
            (2, 8)
        } else if len >= 2 && cmd.get_char(0) == '0' && cmd.get_char(1) == 'x' {
            (2, 16)
        } else {
            (0, 10)
        };

        match parse_offset(cmd, skip, base) {
            Some(offset) => Ok(Msg::Move(Direction::Offset(offset))),
            None => Err("no such command"),
        }
    }
}

} // verus!
