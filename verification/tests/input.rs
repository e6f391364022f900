use sodium::command::prompt::{find_word_end, parse_decimal, parse_unsigned, PromptCommand};
use sodium::edit::line::Line;
use sodium::io::key::{Cmd, Key, KeyEvent};
use sodium::io::key_state::KeyState;
use sodium::io::parse::{with_digit, Inst, Parameter};
use sodium::io::status_bar::StatusBar;
use sodium::state::cursor::Cursor;
use sodium::state::editor::Editor;
use sodium::state::mode::{CommandMode, Mode, PrimitiveMode};
use sodium::state::options::{option_kind, OptionKind, Options};
use sodium::text::{char_to_digit, digit_to_char, str_eq, to_decimal};

fn down(scancode: u8) -> KeyEvent {
    KeyEvent { character: '\0', scancode, pressed: true }
}

fn up(scancode: u8) -> KeyEvent {
    KeyEvent { character: '\0', scancode, pressed: false }
}

fn typed(character: char) -> KeyEvent {
    KeyEvent { character, scancode: 0, pressed: true }
}

#[test]
fn named_keys_come_from_their_scancodes() {
    assert_eq!(Key::from_event(down(orbclient::K_BKSP)), Key::Backspace);
    assert_eq!(Key::from_event(down(orbclient::K_LEFT)), Key::Left);
    assert_eq!(Key::from_event(down(orbclient::K_RIGHT)), Key::Right);
    assert_eq!(Key::from_event(down(orbclient::K_UP)), Key::Up);
    assert_eq!(Key::from_event(down(orbclient::K_DOWN)), Key::Down);
    assert_eq!(Key::from_event(down(orbclient::K_TAB)), Key::Tab);
    assert_eq!(Key::from_event(down(orbclient::K_ESC)), Key::Escape);
    assert_eq!(Key::from_event(down(0x0E)), Key::Backspace);
    assert_eq!(Key::from_event(down(0x4B)), Key::Left);
    assert_eq!(Key::from_event(down(0x4D)), Key::Right);
    assert_eq!(Key::from_event(down(0x48)), Key::Up);
    assert_eq!(Key::from_event(down(0x50)), Key::Down);
    assert_eq!(Key::from_event(down(0x0F)), Key::Tab);
    assert_eq!(Key::from_event(down(0x01)), Key::Escape);
}

#[test]
fn other_keys_come_from_their_character() {
    assert_eq!(Key::from_event(typed('a')), Key::Char('a'));
    assert_eq!(Key::from_event(down(0x1E)), Key::Unknown(0x1E));
    assert_eq!(Key::from_event(up(orbclient::K_BKSP)), Key::Null);
    let event = KeyEvent { character: 'q', scancode: orbclient::K_ESC, pressed: true };
    assert_eq!(Key::from_event(event), Key::Escape);
}

#[test]
fn to_char_of_keys() {
    assert_eq!(Key::Char('x').to_char(), 'x');
    assert_eq!(Key::Escape.to_char(), '\0');
    assert_eq!(Key::Unknown(3).to_char(), '\0');
}

#[test]
fn key_state_follows_the_modifiers() {
    let mut state = KeyState::new();
    assert_eq!(state, KeyState { ctrl: false, alt: false, shift: false });
    assert_eq!(state.feed(down(orbclient::K_ALT)), None);
    assert!(state.alt);
    assert_eq!(state.feed(down(orbclient::K_CTRL)), None);
    assert!(state.ctrl);
    assert_eq!(state.feed(down(orbclient::K_LEFT_SHIFT)), None);
    assert!(state.shift);
    assert_eq!(state.feed(up(orbclient::K_LEFT_SHIFT)), None);
    assert!(!state.shift);
    assert_eq!(state.feed(down(orbclient::K_RIGHT_SHIFT)), None);
    assert!(state.shift);
    assert_eq!(state.feed(up(orbclient::K_ALT)), None);
    assert_eq!(state.feed(up(orbclient::K_CTRL)), None);
    assert_eq!(state, KeyState { ctrl: false, alt: false, shift: true });
    assert_eq!(state.feed(down(0x38)), None);
    assert!(state.alt);
}

#[test]
fn key_state_hands_other_keys_on() {
    let mut state = KeyState::new();
    assert_eq!(state.feed(typed('a')), Some(Key::Char('a')));
    assert_eq!(state.feed(down(orbclient::K_ESC)), Some(Key::Escape));
    assert_eq!(state.feed(up(orbclient::K_ESC)), None);
    assert_eq!(state.feed(KeyEvent { character: 'a', scancode: 0, pressed: false }), None);
    let shifted = KeyEvent { character: 'A', scancode: orbclient::K_LEFT_SHIFT, pressed: true };
    assert_eq!(state.feed(shifted), Some(Key::Char('A')));
    assert_eq!(state, KeyState::new());
}

#[test]
fn parameter_defaults() {
    assert_eq!(Parameter::Int(7).or(3), 7);
    assert_eq!(Parameter::Null.or(3), 3);
    assert_eq!(Parameter::Int(7).d(), 7);
    assert_eq!(Parameter::Null.d(), 1);
    assert_eq!(Parameter::Int(0).d(), 0);
}

#[test]
fn count_digits_accumulate() {
    assert_eq!(with_digit(Parameter::Null, 4), 4);
    assert_eq!(with_digit(Parameter::Int(4), 2), 42);
    assert_eq!(with_digit(Parameter::Int(usize::MAX), 2), usize::MAX);
    assert_eq!(with_digit(Parameter::Int(usize::MAX / 10), 9), usize::MAX);
}

#[test]
fn get_inst_reads_a_count_and_a_key() {
    let mut editor = Editor::new();
    assert_eq!(editor.get_inst(typed('1')), None);
    assert_eq!(editor.get_inst(typed('0')), None);
    assert_eq!(editor.status_bar.cmd, "10");
    let inst = editor.get_inst(typed('j'));
    assert_eq!(inst, Some(Inst(Parameter::Int(10), Cmd::new(Key::Char('j')))));
    assert_eq!(editor.status_bar.cmd, "10j");
    assert_eq!(editor.count, Parameter::Null);
    let next = editor.get_inst(typed('x'));
    assert_eq!(next, Some(Inst(Parameter::Null, Cmd::new(Key::Char('x')))));
    assert_eq!(editor.status_bar.cmd, "x");
}

#[test]
fn leading_zero_is_a_key_of_its_own() {
    let mut editor = Editor::new();
    let inst = editor.get_inst(typed('0'));
    assert_eq!(inst, Some(Inst(Parameter::Null, Cmd::new(Key::Char('0')))));
}

#[test]
fn digits_are_text_in_insert_mode() {
    let mut editor = Editor::new();
    editor.set_mode(Mode::Primitive(PrimitiveMode::Prompt));
    let inst = editor.get_inst(typed('5'));
    assert_eq!(inst, Some(Inst(Parameter::Null, Cmd::new(Key::Char('5')))));
}

#[test]
fn get_inst_takes_the_modifiers_along() {
    let mut editor = Editor::new();
    assert_eq!(editor.get_inst(down(orbclient::K_ALT)), None);
    assert_eq!(editor.get_inst(up(orbclient::K_ESC)), None);
    let inst = editor.get_inst(typed('j')).unwrap();
    assert_eq!(inst.1, Cmd { key: Key::Char('j'), shift: false, alt: true, ctrl: false });
}

#[test]
fn get_char_waits_for_a_character() {
    let mut editor = Editor::new();
    assert_eq!(editor.get_char(down(orbclient::K_LEFT_SHIFT)), None);
    assert_eq!(editor.get_char(down(orbclient::K_UP)), None);
    assert_eq!(editor.get_char(typed('5')), Some('5'));
    assert_eq!(editor.status_bar.cmd, "5");
    assert!(editor.key_state.shift);
}

#[test]
fn options_by_name() {
    let mut options = Options::new();
    assert_eq!(options.get("autoindent"), Some(true));
    assert_eq!(options.get("ai"), Some(true));
    assert_eq!(options.get("debug_mode"), Some(true));
    assert_eq!(options.get("hl"), Some(true));
    assert_eq!(options.get("lm"), Some(true));
    assert_eq!(options.get("linemark"), Some(true));
    assert_eq!(options.get("ro"), Some(false));
    assert_eq!(options.get("ln"), Some(false));
    assert_eq!(options.get("nothing"), None);
    assert_eq!(options.set("readonly"), Ok(()));
    assert!(options.readonly);
    assert_eq!(options.unset("highlight"), Ok(()));
    assert!(!options.highlight);
    assert_eq!(options.toggle("line_numbers"), Ok(()));
    assert!(options.line_numbers);
    assert_eq!(options.toggle("line_numbers"), Ok(()));
    assert!(!options.line_numbers);
    assert_eq!(options.set("nothing"), Err(()));
    assert_eq!(options.unset(""), Err(()));
    assert_eq!(options.toggle("AI"), Err(()));
    *options.get_mut("linemarker").unwrap() = false;
    assert!(!options.line_marker);
    assert!(options.get_mut("x").is_none());
    assert_eq!(option_kind("debug"), Some(OptionKind::Debug));
    assert_eq!(option_kind("line_marker"), Some(OptionKind::LineMarker));
}

#[test]
fn new_values() {
    let bar = StatusBar::new();
    assert_eq!(bar.mode, "Normal");
    assert_eq!(bar.cmd, "");
    assert_eq!(bar.msg, "Welcome to Sodium!");
    let cursor = Cursor::new();
    assert_eq!((cursor.x, cursor.y), (0, 0));
    assert_eq!(cursor.mode, Mode::Command(CommandMode::Normal));
    assert!(cursor.mode.is_normal());
    assert_eq!(cursor.mode.to_string(), "Normal");
    assert_eq!(Mode::Primitive(PrimitiveMode::Prompt).to_string(), "Prompt");
    assert!(!Mode::Primitive(PrimitiveMode::Prompt).is_normal());
}

#[test]
fn decimal_numbers() {
    assert_eq!(to_decimal(0).to_string(), "0");
    assert_eq!(to_decimal(7).to_string(), "7");
    assert_eq!(to_decimal(1205).to_string(), "1205");
    assert_eq!(to_decimal(usize::MAX).to_string(), usize::MAX.to_string());
    assert_eq!(digit_to_char(9), '9');
    assert_eq!(char_to_digit('4'), Some(4));
    assert_eq!(char_to_digit('x'), None);
    assert_eq!(parse_decimal(&Line::from_str("0")), Some(0));
    assert_eq!(parse_decimal(&Line::from_str("042")), Some(42));
    assert_eq!(parse_decimal(&Line::from_str("")), None);
    assert_eq!(parse_decimal(&Line::from_str("4x")), None);
    assert_eq!(parse_decimal(&Line::from_str("+4")), None);
    assert_eq!(parse_decimal(&Line::from_str(&usize::MAX.to_string())), Some(usize::MAX));
    assert_eq!(parse_decimal(&Line::from_str("99999999999999999999999999")), None);
    assert_eq!(parse_unsigned(&Line::from_str("+4")), Some(4));
    assert_eq!(parse_unsigned(&Line::from_str("4")), Some(4));
    assert_eq!(parse_unsigned(&Line::from_str("+007")), Some(7));
    assert_eq!(parse_unsigned(&Line::from_str("+")), None);
    assert_eq!(parse_unsigned(&Line::from_str("")), None);
    assert_eq!(parse_unsigned(&Line::from_str("++4")), None);
    assert_eq!(parse_unsigned(&Line::from_str("-4")), None);
    assert_eq!(parse_unsigned(&Line::from_str("4+")), None);
    assert_eq!(parse_unsigned(&Line::from_str(" 4")), None);
    assert_eq!(
        parse_unsigned(&Line::from_str(&format!("+{}", usize::MAX))),
        Some(usize::MAX)
    );
    assert_eq!(parse_unsigned(&Line::from_str("+99999999999999999999999999")), None);
    for text in ["", "+", "0", "+0", "12", "+12", "-1", "1x", "x1", "++1", "٣", "1_0", "0x10"] {
        assert_eq!(parse_unsigned(&Line::from_str(text)), text.parse::<usize>().ok());
    }
    assert!(str_eq("ab", "ab"));
    assert!(!str_eq("ab", "abc"));
    assert_eq!(find_word_end(&Line::from_str("ab cd"), 0), 2);
    assert_eq!(find_word_end(&Line::from_str("ab cd"), 3), 5);
}

fn option_of(command: Option<PromptCommand>) -> String {
    match command {
        Some(PromptCommand::SetOption { option }) => format!("set:{}", option),
        Some(PromptCommand::Unset { option }) => format!("unset:{}", option),
        Some(PromptCommand::Toggle { option }) => format!("toggle:{}", option),
        Some(PromptCommand::Get { option }) => format!("get:{}", option),
        Some(PromptCommand::Open { path }) => format!("open:{}", path),
        Some(PromptCommand::Write { path }) => format!("write:{}", path),
        Some(PromptCommand::ListBuffers) => format!("ls"),
        Some(PromptCommand::CreateBuffer) => format!("bn"),
        Some(PromptCommand::DeleteBuffer) => format!("bd"),
        Some(PromptCommand::SwitchToBuffer { buffer_index }) => format!("b:{}", buffer_index),
        Some(PromptCommand::Help) => format!("help"),
        Some(PromptCommand::Quit) => format!("quit"),
        None => format!("none"),
    }
}

#[test]
fn prompt_commands_are_parsed() {
    assert_eq!(option_of(PromptCommand::parse("set ai")), "set:ai");
    assert_eq!(option_of(PromptCommand::parse("set")), "set:");
    assert_eq!(option_of(PromptCommand::parse("set  ai")), "set:");
    assert_eq!(option_of(PromptCommand::parse("unset hl more")), "unset:hl");
    assert_eq!(option_of(PromptCommand::parse("toggle ln")), "toggle:ln");
    assert_eq!(option_of(PromptCommand::parse("tog ln")), "toggle:ln");
    assert_eq!(option_of(PromptCommand::parse("get ro")), "get:ro");
    assert_eq!(option_of(PromptCommand::parse("o a.txt")), "open:a.txt");
    assert_eq!(option_of(PromptCommand::parse("open a.txt")), "open:a.txt");
    assert_eq!(option_of(PromptCommand::parse("w b.txt")), "write:b.txt");
    assert_eq!(option_of(PromptCommand::parse("write")), "write:");
    assert_eq!(option_of(PromptCommand::parse("ls")), "ls");
    assert_eq!(option_of(PromptCommand::parse("bn")), "bn");
    assert_eq!(option_of(PromptCommand::parse("bd")), "bd");
    assert_eq!(option_of(PromptCommand::parse("b0")), "b:0");
    assert_eq!(option_of(PromptCommand::parse("b12 x")), "b:12");
    assert_eq!(option_of(PromptCommand::parse("b+5")), "b:5");
    assert_eq!(option_of(PromptCommand::parse("b+")), "none");
    assert_eq!(option_of(PromptCommand::parse("b++5")), "none");
    assert_eq!(option_of(PromptCommand::parse("b-5")), "none");
    assert_eq!(option_of(PromptCommand::parse("b")), "none");
    assert_eq!(option_of(PromptCommand::parse("bx")), "none");
    assert_eq!(option_of(PromptCommand::parse("h")), "help");
    assert_eq!(option_of(PromptCommand::parse("help")), "help");
    assert_eq!(option_of(PromptCommand::parse("q")), "quit");
    assert_eq!(option_of(PromptCommand::parse("quit")), "quit");
    assert_eq!(option_of(PromptCommand::parse("")), "none");
    assert_eq!(option_of(PromptCommand::parse(" set ai")), "none");
    assert_eq!(option_of(PromptCommand::parse("sett")), "none");
}
