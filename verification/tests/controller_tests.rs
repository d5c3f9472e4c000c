use xim::controller::{Action, Controller, Msg};
use xim::model::Model;
use xim::vim::{Key, VimState};
use xim::Caret;

fn fresh(bytes: Vec<u8>) -> Controller {
    let mut ctrl = Controller::new(Model::new());
    ctrl.open("scratch".to_string(), bytes);
    ctrl
}

#[test]
fn empty_buffer_insert_scenario() {
    // Open an empty buffer, enter Insert, type hex 41, leave, quit
    // without saving: the whole editing round trip.
    let mut ctrl = fresh(vec![]);
    assert!(matches!(ctrl.state, VimState::Normal));

    assert!(matches!(ctrl.transition(Key::Char('i')), Action::Continue));
    assert!(matches!(ctrl.state, VimState::Insert(_)));

    ctrl.transition(Key::Char('4'));
    ctrl.transition(Key::Char('1'));
    assert_eq!(ctrl.model.buffer, vec![0x41]);
    assert_eq!(ctrl.model.get_index(), 1);

    ctrl.transition(Key::Esc);
    assert!(matches!(ctrl.state, VimState::Normal));
    assert_eq!(ctrl.model.get_index(), 0);
    assert!(matches!(ctrl.model.caret, Caret::Offset(_)));

    ctrl.transition(Key::Char(':'));
    ctrl.transition(Key::Char('q'));
    ctrl.transition(Key::Char('!'));
    let last = ctrl.transition(Key::Char('\n'));
    assert!(matches!(last, Action::Stop));
}

#[test]
fn to_visual_twice_keeps_the_selection() {
    let mut ctrl = fresh(vec![1, 2, 3, 4]);
    ctrl.update(Msg::ToVisual);
    ctrl.update(Msg::Move(xim::controller::Direction::Right));
    let once = ctrl.model.caret;
    ctrl.update(Msg::ToVisual);
    assert_eq!(ctrl.model.caret, once);
    match ctrl.model.caret {
        Caret::Visual(s, e) => {
            assert_eq!(s.get(), 0);
            assert_eq!(e.get(), 1);
        }
        _ => panic!("expected a selection"),
    }
}

#[test]
fn replace_single_shot_returns_to_normal() {
    let mut ctrl = fresh(vec![0x10, 0x20, 0x30]);
    ctrl.transition(Key::Char('r'));
    assert!(matches!(ctrl.state, VimState::Replace(_, false)));
    ctrl.transition(Key::Char('f'));
    ctrl.transition(Key::Char('e'));
    assert_eq!(ctrl.model.buffer, vec![0xfe, 0x20, 0x30]);
    assert!(matches!(ctrl.state, VimState::Normal));
}

#[test]
fn replace_repeating_advances() {
    let mut ctrl = fresh(vec![0, 0, 0]);
    ctrl.transition(Key::Char('R'));
    assert!(matches!(ctrl.state, VimState::Replace(_, true)));
    ctrl.transition(Key::Char('0'));
    ctrl.transition(Key::Char('1'));
    ctrl.transition(Key::Char('0'));
    ctrl.transition(Key::Char('2'));
    assert_eq!(ctrl.model.buffer, vec![1, 2, 0]);
    assert!(matches!(ctrl.state, VimState::Replace(_, true)));
    assert_eq!(ctrl.model.get_index(), 2);
}

#[test]
fn visual_delete_removes_the_selection() {
    let mut ctrl = fresh(vec![1, 2, 3, 4, 5]);
    ctrl.transition(Key::Char('v'));
    ctrl.transition(Key::Char('l'));
    ctrl.transition(Key::Char('l'));
    ctrl.transition(Key::Char('x'));
    assert_eq!(ctrl.model.buffer, vec![4, 5]);
    assert!(matches!(ctrl.state, VimState::Normal));
    assert_eq!(ctrl.model.get_index(), 0);
    // the removed range sits in the yank register
    assert_eq!(ctrl.yank, Some(vec![1, 2, 3]));
}

#[test]
fn yank_and_paste_duplicate_a_byte() {
    let mut ctrl = fresh(vec![7, 8]);
    ctrl.transition(Key::Char('y'));
    assert_eq!(ctrl.yank, Some(vec![7]));
    ctrl.transition(Key::Char('p'));
    assert_eq!(ctrl.model.buffer, vec![7, 7, 8]);
}

#[test]
fn delete_key_yanks_and_removes() {
    let mut ctrl = fresh(vec![9, 10, 11]);
    ctrl.transition(Key::Char('l'));
    ctrl.transition(Key::Char('x'));
    assert_eq!(ctrl.model.buffer, vec![9, 11]);
    assert_eq!(ctrl.yank, Some(vec![10]));
}

#[test]
fn undo_key_restores_previous_snapshot() {
    let mut ctrl = fresh(vec![1]);
    ctrl.transition(Key::Char('x'));
    assert_eq!(ctrl.model.buffer, vec![]);
    ctrl.transition(Key::Char('u'));
    assert_eq!(ctrl.model.buffer, vec![1]);
    // nothing more to undo: the status line says so
    ctrl.transition(Key::Char('u'));
    assert_eq!(ctrl.status_body, "Nothing to undo");
}

#[test]
fn newline_realigns_to_row_start() {
    let mut ctrl = fresh(vec![0; 40]);
    ctrl.update(Msg::Move(xim::controller::Direction::Offset(5)));
    ctrl.transition(Key::Char('\n'));
    assert_eq!(ctrl.model.get_index(), 16);
}

#[test]
fn unknown_keys_are_identity() {
    let mut ctrl = fresh(vec![1, 2]);
    let before = ctrl.model.buffer.clone();
    assert!(matches!(ctrl.transition(Key::F(5)), Action::Continue));
    assert!(matches!(ctrl.state, VimState::Normal));
    assert_eq!(ctrl.model.buffer, before);
}

#[test]
fn quit_is_refused_while_modified() {
    let mut ctrl = fresh(vec![1, 2]);
    ctrl.transition(Key::Char('x'));
    // the application would read the file and hand its bytes back
    let action = ctrl.decide_quit(&vec![1, 2]);
    assert!(matches!(action, Action::Continue));
    assert_eq!(ctrl.status_body, "save your changes with :w or force quit with :q!");

    let action = ctrl.decide_quit(&vec![2]);
    assert!(matches!(action, Action::Stop));
}

#[test]
fn save_outcomes_reach_the_status_line() {
    let mut ctrl = fresh(vec![1]);
    let action = ctrl.save_result("scratch", Ok(()), false);
    assert!(matches!(action, Action::Continue));
    assert_eq!(ctrl.status_body, "\"scratch\" saved");

    let action = ctrl.save_result("scratch", Ok(()), true);
    assert!(matches!(action, Action::Stop));

    let action = ctrl.save_result("scratch", Err("denied".to_string()), false);
    assert!(matches!(action, Action::Continue));
    assert_eq!(ctrl.status_body, "could not save \"scratch\": denied");
}

#[test]
fn command_line_echo_and_escape() {
    let mut ctrl = fresh(vec![]);
    ctrl.transition(Key::Char(':'));
    ctrl.transition(Key::Char('w'));
    ctrl.transition(Key::Char('q'));
    assert_eq!(ctrl.status_body, ":wq");
    ctrl.transition(Key::Backspace);
    assert_eq!(ctrl.status_body, ":w");
    ctrl.transition(Key::Esc);
    assert!(matches!(ctrl.state, VimState::Normal));
    assert_eq!(ctrl.status_body, "");
}

#[test]
fn command_jump_moves_the_cursor() {
    let mut ctrl = fresh(vec![0; 64]);
    ctrl.transition(Key::Char(':'));
    ctrl.transition(Key::Char('0'));
    ctrl.transition(Key::Char('x'));
    ctrl.transition(Key::Char('2'));
    ctrl.transition(Key::Char('0'));
    let action = ctrl.transition(Key::Char('\n'));
    assert!(matches!(action, Action::Continue));
    assert_eq!(ctrl.model.get_index(), 0x20);
}

#[test]
fn bad_command_reports_and_returns_to_normal() {
    let mut ctrl = fresh(vec![]);
    ctrl.transition(Key::Char(':'));
    ctrl.transition(Key::Char('z'));
    let action = ctrl.transition(Key::Char('\n'));
    assert!(matches!(action, Action::Continue));
    assert!(matches!(ctrl.state, VimState::Normal));
    assert_eq!(ctrl.status_body, "no such command");
}

#[test]
fn clipboard_copy_hands_out_the_selection() {
    let mut ctrl = fresh(vec![1, 2, 3, 4]);
    ctrl.transition(Key::Char('v'));
    ctrl.transition(Key::Char('l'));
    match ctrl.transition(Key::Ctrl('c')) {
        Action::CopyToClipboard(bytes) => assert_eq!(bytes, vec![1, 2]),
        other => panic!("unexpected action: {:?}", other),
    }
}

#[test]
fn tab_toggles_the_entry_mode() {
    let mut ctrl = fresh(vec![]);
    ctrl.transition(Key::Char('\t'));
    assert_eq!(ctrl.status_body, "-- Normal (Ascii) --");
    ctrl.transition(Key::Char('\t'));
    assert_eq!(ctrl.status_body, "-- Normal (Hex) --");
}

#[test]
fn append_enters_insert_after_the_cursor() {
    let mut ctrl = fresh(vec![1, 2]);
    ctrl.transition(Key::Char('a'));
    assert!(matches!(ctrl.state, VimState::Insert(_)));
    assert!(matches!(ctrl.model.caret, Caret::Index(_)));
    assert_eq!(ctrl.model.get_index(), 1);
    ctrl.transition(Key::Char('f'));
    ctrl.transition(Key::Char('f'));
    assert_eq!(ctrl.model.buffer, vec![1, 0xff, 2]);
}

#[test]
fn paste_result_inserts_decoded_bytes() {
    let mut ctrl = fresh(vec![1, 2]);
    ctrl.paste_result(Ok(vec![5, 6]));
    assert_eq!(ctrl.model.buffer, vec![5, 6, 1, 2]);
    ctrl.paste_result(Err("clipboard unavailable".to_string()));
    assert_eq!(ctrl.status_body, "clipboard unavailable");
    assert_eq!(ctrl.model.buffer, vec![5, 6, 1, 2]);
}

#[test]
fn insert_mode_moves_only_before_typing() {
    let mut ctrl = fresh(vec![1, 2, 3]);
    ctrl.transition(Key::Char('i'));
    ctrl.transition(Key::Right);
    assert_eq!(ctrl.model.get_index(), 1);
    // a structural delete while nothing is typed yet
    ctrl.transition(Key::Backspace);
    assert_eq!(ctrl.model.buffer, vec![2, 3]);
    // once composing, navigation is refused
    ctrl.transition(Key::Char('4'));
    let at = ctrl.model.get_index();
    ctrl.transition(Key::Right);
    assert_eq!(ctrl.model.get_index(), at);
    assert_eq!(ctrl.model.buffer, vec![2, 3]);
}

#[test]
fn visual_pivot_swaps_endpoints() {
    let mut ctrl = fresh(vec![1, 2, 3, 4]);
    ctrl.transition(Key::Char('v'));
    ctrl.transition(Key::Char('l'));
    ctrl.transition(Key::Char('l'));
    assert_eq!(ctrl.model.get_index(), 2);
    ctrl.transition(Key::Char('o'));
    assert_eq!(ctrl.model.get_index(), 0);
    // the yanked range is normalized whatever the pivot order
    ctrl.transition(Key::Char('y'));
    assert_eq!(ctrl.yank, Some(vec![1, 2, 3]));
}
