//! Window arithmetic and the computing halves of the clipboard
//! operations.
//!
//! The scroll window, the row alignment helpers and the hex offset width
//! are verified arithmetic.  The clipboard itself is outside the library;
//! what is computed around it — the hex payload, the echoed status
//! message, and the parse of pasted text — lives here, with the calls
//! into the hex codec behind trusted wrappers.

use vstd::prelude::*;
use vstd::string::StrSliceExecFns;
use vstd::string::StringExecFns;

verus! {

/// The window start that keeps `new_index` visible in a window of
/// `height` rows: unchanged when already visible, otherwise moved by the
/// least amount that shows the row.
pub open spec fn moved_window(start: int, height: int, new_index: int) -> int {
    if new_index < start {
        new_index
    } else if new_index > start + (height - 1) {
        new_index - (height - 1)
    } else {
        start
    }
}

pub fn move_window(start: usize, height: usize, new_index: usize) -> (ret: Option<usize>)
    ensures
        (ret is None) <==> height == 0,
        height > 0 ==> (ret matches Some(s) && s == moved_window(
            start as int,
            height as int,
            new_index as int,
        )),
{
    if height == 0 {
        return None;
    }

    let mut new_start = start;

    if new_index < start {
        new_start = new_index;
    } else if new_index - start > height - 1 {
        new_start = new_index - (height - 1);
    }

    Some(new_start)
}

/// A window never needs to move for an index it already shows, and the
/// window it returns always shows the index.
pub proof fn lemma_move_window_shows_index(start: int, height: int, new_index: int)
    requires
        height > 0,
        0 <= start,
        0 <= new_index,
    ensures
        start <= new_index <= start + height - 1 ==> moved_window(start, height, new_index)
            == start,
        moved_window(start, height, new_index) <= new_index <= moved_window(
            start,
            height,
            new_index,
        ) + height - 1,
{
}

/// `value` rounded down to a multiple of `boundary`; a zero boundary
/// leaves the value alone.
pub open spec fn aligned(value: int, boundary: int) -> int {
    if boundary == 0 {
        value
    } else {
        value - value % boundary
    }
}

pub fn align(value: u16, boundary: u16) -> (ret: u16)
    ensures
        ret == aligned(value as int, boundary as int),
{
    if boundary == 0 {
        value
    } else {
        proof {
            assert((value as int) % (boundary as int) <= value as int) by (nonlinear_arith)
                requires
                    boundary > 0,
            ;
        }
        value - (value % boundary)
    }
}

/// The last value of the aligned block: `align(value) + boundary - 1`.
/// The result must fit in sixteen bits.
pub fn align_top(value: u16, boundary: u16) -> (ret: u16)
    requires
        boundary > 0 ==> aligned(value as int, boundary as int) + boundary - 1 <= u16::MAX,
    ensures
        boundary == 0 ==> ret == value,
        boundary > 0 ==> ret == aligned(value as int, boundary as int) + boundary - 1,
{
    if boundary == 0 {
        value
    } else {
        align(value, boundary) + (boundary - 1)
    }
}

/// The number of digits in the hexadecimal rendering of `n`.
pub open spec fn hex_width(n: nat) -> nat
    decreases n,
{
    if n < 16 {
        1
    } else {
        1 + hex_width(n / 16)
    }
}

/// Sixteen to the `k`th power.
pub open spec fn pow16(k: nat) -> nat
    decreases k,
{
    if k == 0 {
        1
    } else {
        16 * pow16((k - 1) as nat)
    }
}

proof fn lemma_hex_width_le(n: nat, k: nat)
    requires
        k >= 1,
        n < pow16(k),
    ensures
        hex_width(n) <= k,
    decreases k,
{
    if n >= 16 {
        assert(pow16(k) == 16 * pow16((k - 1) as nat));
        assert(n / 16 < pow16((k - 1) as nat)) by (nonlinear_arith)
            requires
                n < 16 * pow16((k - 1) as nat),
        ;
        lemma_hex_width_le(n / 16, (k - 1) as nat);
    }
}

proof fn lemma_hex_width_usize(n: nat)
    requires
        n <= usize::MAX,
    ensures
        hex_width(n) <= 16,
{
    assert(pow16(16) == 0x1_0000_0000_0000_0000) by {
        reveal_with_fuel(pow16, 17);
    }
    lemma_hex_width_le(n, 16);
}

/// The width of the offset column: how many hex digits the largest
/// offset takes.
pub fn offset_width(max: usize) -> (ret: u16)
    ensures
        ret == hex_width(max as nat),
{
    proof {
        lemma_hex_width_usize(max as nat);
    }
    let mut n = max;
    let mut width: u16 = 1;
    while n >= 16
        invariant
            hex_width(n as nat) + width == hex_width(max as nat) + 1,
            1 <= width,
            hex_width(max as nat) <= 16,
        decreases n,
    {
        n = n / 16;
        width = width + 1;
    }
    width
}

/// The lowercase hex digit for a value below sixteen.
pub open spec fn hex_digit_char(v: u8) -> char {
    if v < 10 {
        (v + 48) as char
    } else {
        (v + 87) as char
    }
}

/// The two lowercase hex digits of one byte.
pub open spec fn hex_pair(b: u8) -> Seq<char> {
    seq![hex_digit_char(b / 16), hex_digit_char(b % 16)]
}

/// The lowercase hex rendering of a byte sequence, two digits per byte.
pub open spec fn hex_str(bs: Seq<u8>) -> Seq<char>
    decreases bs.len(),
{
    if bs.len() == 0 {
        Seq::<char>::empty()
    } else {
        hex_pair(bs[0]) + hex_str(bs.drop_first())
    }
}

/// Whether `c` is a hex digit, either case.
pub open spec fn is_hex_digit(c: char) -> bool {
    ||| 48 <= c as u32 <= 57
    ||| 97 <= c as u32 <= 102
    ||| 65 <= c as u32 <= 70
}

/// Whether `c` is a hex digit, either case, as executable code.
pub fn is_hex_digit_char(c: char) -> (ret: bool)
    ensures
        ret == is_hex_digit(c),
{
    let u = c as u32;
    (48 <= u && u <= 57) || (97 <= u && u <= 102) || (65 <= u && u <= 70)
}

/// The value of a hex digit, either case.
pub open spec fn hex_digit_value(c: char) -> u8 {
    if 48 <= c as u32 <= 57 {
        (c as u32 - 48) as u8
    } else if 97 <= c as u32 <= 102 {
        (c as u32 - 87) as u8
    } else {
        (c as u32 - 55) as u8
    }
}

/// The value of a hex digit, as executable code.
pub fn hex_value_char(c: char) -> (ret: u8)
    requires
        is_hex_digit(c),
    ensures
        ret == hex_digit_value(c),
{
    let u = c as u32;
    if 48 <= u && u <= 57 {
        (u - 48) as u8
    } else if 97 <= u && u <= 102 {
        (u - 87) as u8
    } else {
        (u - 55) as u8
    }
}

/// The byte denoted by two hex digits.
pub open spec fn hex_byte(hi: char, lo: char) -> u8 {
    (hex_digit_value(hi) * 16 + hex_digit_value(lo)) as u8
}

/// The bytes denoted by a sequence of hex digit pairs.
pub open spec fn hex_parse(s: Seq<char>) -> Seq<u8>
    decreases s.len(),
{
    if s.len() < 2 {
        Seq::<u8>::empty()
    } else {
        seq![hex_byte(s[0], s[1])] + hex_parse(s.skip(2))
    }
}

/// Relies on hex::encode: every byte becomes two lowercase hex digits,
/// in order.
#[verifier::external_body]
fn hex_encode(data: &Vec<u8>) -> (ret: String)
    ensures
        ret@ == hex_str(data@),
{
    hex::encode(data)
}

/// Relies on hex::decode: it succeeds exactly on an even number of hex
/// digits of either case and returns the bytes they denote; the error
/// only carries a description of the first offence.
#[verifier::external_body]
fn hex_decode(data: &str) -> (ret: Result<Vec<u8>, String>)
    ensures
        (ret is Ok) <==> (data@.len() % 2 == 0 && forall|i: int|
            0 <= i < data@.len() ==> is_hex_digit(data@[i])),
        ret matches Ok(v) ==> v@ == hex_parse(data@),
{
    hex::decode(data).map_err(|e| format!("{}", e))
}

/// Whether `c` is whitespace (the Unicode white-space set).
pub open spec fn is_space(c: char) -> bool {
    ||| 9 <= c as u32 <= 13
    ||| c as u32 == 32
    ||| c as u32 == 0x85
    ||| c as u32 == 0xA0
    ||| c as u32 == 0x1680
    ||| 0x2000 <= c as u32 <= 0x200A
    ||| c as u32 == 0x2028
    ||| c as u32 == 0x2029
    ||| c as u32 == 0x202F
    ||| c as u32 == 0x205F
    ||| c as u32 == 0x3000
}

pub fn is_space_char(c: char) -> (ret: bool)
    ensures
        ret == is_space(c),
{
    let u = c as u32;
    (9 <= u && u <= 13) || u == 32 || u == 0x85 || u == 0xA0 || u == 0x1680 || (0x2000 <= u && u
        <= 0x200A) || u == 0x2028 || u == 0x2029 || u == 0x202F || u == 0x205F || u == 0x3000
}

/// `s` with its whitespace characters removed, in order.
pub open spec fn drop_spaces(s: Seq<char>) -> Seq<char>
    decreases s.len(),
{
    if s.len() == 0 {
        Seq::<char>::empty()
    } else {
        drop_spaces(s.drop_last()) + (if is_space(s.last()) {
            Seq::<char>::empty()
        } else {
            seq![s.last()]
        })
    }
}

/// Relies on String::push: it appends one character.
#[verifier::external_body]
pub(crate) fn push_char(s: &mut String, c: char)
    ensures
        final(s)@ == old(s)@.push(c),
{
    s.push(c)
}

/// Relies on String::pop: it removes and returns the last character, or
/// does nothing on an empty string.
#[verifier::external_body]
pub(crate) fn pop_char(s: &mut String) -> (ret: Option<char>)
    ensures
        old(s)@.len() == 0 ==> final(s)@ == old(s)@ && ret is None,
        old(s)@.len() > 0 ==> final(s)@ == old(s)@.drop_last() && ret == Some(old(s)@.last()),
{
    s.pop()
}

/// The full hex encoding of `data`: the text a clipboard copy places on
/// the clipboard.
pub fn clipboard_payload(data: &Vec<u8>) -> (ret: String)
    ensures
        ret@ == hex_str(data@),
{
    hex_encode(data)
}

/// The status message a clipboard copy of `data` reports once the write
/// itself succeeded: a refusal for an empty copy, otherwise an echo of
/// the first bytes in hex, abridged after three.
pub fn copy_feedback(data: &Vec<u8>) -> (ret: Result<String, String>)
    ensures
        (ret is Ok) <==> data@.len() > 0,
        data@.len() == 0 ==> (ret matches Err(m) && m@ == "No data to copy"@),
        data@.len() == 1 ==> (ret matches Ok(m) && m@ == "Copied to clipboard ("@ + hex_str(data@)
            + ")"@),
        data@.len() > 1 ==> (ret matches Ok(m) && m@ == "Copied to clipboard ("@ + hex_str(
            data@.subrange(0, vstd::math::min(data@.len() as int, 3)),
        ) + "...)"@),
{
    if data.len() == 0 {
        return Err(String::from_str("No data to copy"));
    }

    let take = if data.len() < 3 {
        data.len()
    } else {
        3
    };
    let mut prefix: Vec<u8> = Vec::new();
    let mut i: usize = 0;
    while i < take
        invariant
            i <= take <= data@.len(),
            prefix@ == data@.subrange(0, i as int),
        decreases take - i,
    {
        prefix.push(data[i]);
        proof {
            assert(prefix@ =~= data@.subrange(0, i + 1));
        }
        i = i + 1;
    }
    let hex = hex_encode(&prefix);

    if data.len() == 1 {
        proof {
            assert(data@.subrange(0, 1) =~= data@);
        }
        Ok(String::from_str("Copied to clipboard (").concat(hex.as_str()).concat(")"))
    } else {
        Ok(String::from_str("Copied to clipboard (").concat(hex.as_str()).concat("...)"))
    }
}

/// The parse of pasted clipboard text: whitespace is dropped, and what
/// remains must be an even number of hex digits denoting the returned
/// bytes.
pub fn parse_clipboard(data: &str) -> (ret: Result<Vec<u8>, String>)
    ensures
        ({
            let kept = drop_spaces(data@);
            &&& (ret is Ok) <==> (kept.len() % 2 == 0 && forall|i: int|
                0 <= i < kept.len() ==> is_hex_digit(kept[i]))
            &&& (ret matches Ok(v) ==> v@ == hex_parse(kept))
        }),
{
    let len = data.unicode_len();
    let mut kept = String::new();
    let mut i: usize = 0;
    while i < len
        invariant
            i <= len == data@.len(),
            kept@ == drop_spaces(data@.subrange(0, i as int)),
        decreases len - i,
    {
        let c = data.get_char(i);
        if !is_space_char(c) {
            push_char(&mut kept, c);
        }
        proof {
            assert(data@.subrange(0, i + 1).drop_last() =~= data@.subrange(0, i as int));
            assert(data@.subrange(0, i + 1).last() == data@[i as int]);
        }
        i = i + 1;
    }
    proof {
        assert(data@.subrange(0, data@.len() as int) =~= data@);
    }
    hex_decode(kept.as_str())
}

} // verus!
