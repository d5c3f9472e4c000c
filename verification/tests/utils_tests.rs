use xim::utils::{
    align, align_top, clipboard_payload, copy_feedback, move_window, offset_width,
    parse_clipboard,
};
use xim::Ascii;

#[test]
fn move_window_cases() {
    // no window at all
    assert_eq!(move_window(4, 0, 10), None);
    // already visible: no move
    assert_eq!(move_window(10, 5, 10), Some(10));
    assert_eq!(move_window(10, 5, 14), Some(10));
    // above the window
    assert_eq!(move_window(10, 5, 3), Some(3));
    // below the window
    assert_eq!(move_window(10, 5, 20), Some(16));
    // one-row window follows the index exactly
    assert_eq!(move_window(0, 1, 9), Some(9));
}

#[test]
fn align_cases() {
    assert_eq!(align(17, 16), 16);
    assert_eq!(align(16, 16), 16);
    assert_eq!(align(15, 16), 0);
    assert_eq!(align(5, 0), 5);
    assert_eq!(align_top(17, 16), 31);
    assert_eq!(align_top(0, 16), 15);
    assert_eq!(align_top(5, 0), 5);
}

#[test]
fn offset_width_counts_hex_digits() {
    assert_eq!(offset_width(0), 1);
    assert_eq!(offset_width(15), 1);
    assert_eq!(offset_width(16), 2);
    assert_eq!(offset_width(255), 2);
    assert_eq!(offset_width(256), 3);
    assert_eq!(offset_width(0xffff), 4);
    assert_eq!(offset_width(0x10000), 5);
}

#[test]
fn clipboard_payload_is_lower_hex() {
    assert_eq!(clipboard_payload(&vec![]), "");
    assert_eq!(clipboard_payload(&vec![0x00, 0xff, 0x41]), "00ff41");
}

#[test]
fn copy_feedback_messages() {
    assert_eq!(copy_feedback(&vec![]), Err("No data to copy".to_string()));
    assert_eq!(copy_feedback(&vec![0xab]), Ok("Copied to clipboard (ab)".to_string()));
    assert_eq!(
        copy_feedback(&vec![1, 2]),
        Ok("Copied to clipboard (0102...)".to_string())
    );
    assert_eq!(
        copy_feedback(&vec![1, 2, 3, 4, 5]),
        Ok("Copied to clipboard (010203...)".to_string())
    );
}

#[test]
fn parse_clipboard_round_trip() {
    assert_eq!(parse_clipboard("41 42\n"), Ok(vec![0x41, 0x42]));
    assert_eq!(parse_clipboard("  DEAD beef "), Ok(vec![0xde, 0xad, 0xbe, 0xef]));
    assert_eq!(parse_clipboard(""), Ok(vec![]));
    assert!(parse_clipboard("123").is_err());
    assert!(parse_clipboard("zz").is_err());
}

#[test]
fn printable_bytes() {
    assert_eq!(65u8.to_printable(), 'A');
    assert_eq!(126u8.to_printable(), '~');
    assert_eq!(32u8.to_printable(), ' ');
    assert_eq!(10u8.to_printable(), '.');
    assert_eq!(200u8.to_printable(), '.');
}
