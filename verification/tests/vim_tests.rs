use xim::controller::{Direction, Msg};
use xim::vim::{InputMode, InputState, InputStateMachine, Key};

#[test]
fn hex_entry_composes_a_byte() {
    let mut machine = InputStateMachine::new(InputMode::Hex);
    assert!(machine.initial());
    assert!(machine.valid_input('a'));
    assert!(machine.valid_input('F'));
    assert!(!machine.valid_input('g'));

    machine.transition(Key::Char('a'));
    assert!(!machine.initial());
    machine.transition(Key::Char('f'));
    assert_eq!(machine.state, InputState::Done(0xaf));
}

#[test]
fn hex_entry_backspace_reverts() {
    let mut machine = InputStateMachine::new(InputMode::Hex);
    machine.transition(Key::Char('a'));
    machine.transition(Key::Backspace);
    assert_eq!(machine.state, InputState::Incomplete(String::new()));
    assert!(machine.initial());
}

#[test]
fn ascii_entry_takes_one_character() {
    let mut machine = InputStateMachine::new(InputMode::Ascii);
    assert!(machine.valid_input('A'));
    assert!(!machine.valid_input(' '));
    machine.transition(Key::Char('A'));
    assert_eq!(machine.state, InputState::Done(65));
}

#[test]
fn rejected_keys_change_nothing() {
    let mut machine = InputStateMachine::new(InputMode::Hex);
    machine.transition(Key::Char('z'));
    machine.transition(Key::Left);
    assert_eq!(machine.state, InputState::Incomplete(String::new()));
}

#[test]
fn done_machine_is_inert() {
    let mut machine = InputStateMachine::new(InputMode::Ascii);
    machine.transition(Key::Char('x'));
    machine.transition(Key::Backspace);
    machine.transition(Key::Char('y'));
    assert_eq!(machine.state, InputState::Done(b'x'));
}

#[test]
fn parse_plain_commands() {
    assert!(matches!(Msg::parse("q"), Ok(Msg::Quit)));
    assert!(matches!(Msg::parse("q!"), Ok(Msg::QuitWithoutSaving)));
    assert!(matches!(Msg::parse("w"), Ok(Msg::Save)));
    assert!(matches!(Msg::parse("wq"), Ok(Msg::SaveAndQuit)));
    assert!(matches!(Msg::parse("x"), Ok(Msg::SaveAndQuit)));
}

#[test]
fn parse_save_as_trims_the_path() {
    match Msg::parse("w  notes.bin ") {
        Ok(Msg::SaveAs(path)) => assert_eq!(path, "notes.bin"),
        other => panic!("unexpected parse: {:?}", other),
    }
}

#[test]
fn parse_jump_offsets() {
    assert!(matches!(Msg::parse("123"), Ok(Msg::Move(Direction::Offset(123)))));
    assert!(matches!(Msg::parse("0x1f"), Ok(Msg::Move(Direction::Offset(31)))));
    assert!(matches!(Msg::parse("0b101"), Ok(Msg::Move(Direction::Offset(5)))));
    assert!(matches!(Msg::parse("0810"), Ok(Msg::Move(Direction::Offset(8)))));
    assert!(matches!(Msg::parse("+7"), Ok(Msg::Move(Direction::Offset(7)))));
    assert!(matches!(Msg::parse("0"), Ok(Msg::Move(Direction::Offset(0)))));
}

#[test]
fn parse_rejects_nonsense() {
    assert_eq!(Msg::parse("foo").err(), Some("no such command"));
    assert_eq!(Msg::parse("").err(), Some("no such command"));
    assert_eq!(Msg::parse("0x").err(), Some("no such command"));
    assert_eq!(Msg::parse("0b2").err(), Some("no such command"));
    assert_eq!(Msg::parse("12a").err(), Some("no such command"));
    // far beyond the machine's range
    assert_eq!(
        Msg::parse("999999999999999999999999999999").err(),
        Some("no such command")
    );
}
