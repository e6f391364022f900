use sodium::caret::motion::Motion;
use sodium::command::invoke::Request;
use sodium::command::normal::times_fifteen;
use sodium::command::prompt::PromptCommand;
use sodium::edit::buffer::SplitBuffer;
use sodium::edit::insert::{InsertMode, InsertOptions};
use sodium::edit::line::Line;
use sodium::io::file::FileStatus;
use sodium::io::key::{Cmd, Key, KeyEvent};
use sodium::io::parse::{Inst, Operator, Parameter, Pending};
use sodium::io::redraw::RedrawTask;
use sodium::state::buffers::{Buffer, BufferManager};
use sodium::state::editor::Editor;
use sodium::state::mode::{CommandMode, Mode, PrimitiveMode};

const NORMAL: Mode = Mode::Command(CommandMode::Normal);
const INSERT: Mode = Mode::Primitive(PrimitiveMode::Insert(InsertOptions { mode: InsertMode::Insert }));
const REPLACE: Mode =
    Mode::Primitive(PrimitiveMode::Insert(InsertOptions { mode: InsertMode::Replace }));
const PROMPT: Mode = Mode::Primitive(PrimitiveMode::Prompt);

fn editor_in(lines: &[&str], cursor: (usize, usize)) -> Editor {
    let mut editor = Editor::new();
    let lines: Vec<Line> = lines.iter().map(|l| Line::from_str(l)).collect();
    editor.buffers.current_buffer_info_mut().raw_buffer = SplitBuffer::from_lines(&lines);
    editor.goto(cursor);
    editor
}

fn shown(editor: &Editor) -> Vec<String> {
    editor.buffers.current_buffer().lines().collect().iter().map(|l| l.to_string()).collect()
}

fn key(c: char) -> Inst {
    Inst(Parameter::Null, Cmd::new(Key::Char(c)))
}

fn counted(n: usize, c: char) -> Inst {
    Inst(Parameter::Int(n), Cmd::new(Key::Char(c)))
}

fn special(k: Key) -> Inst {
    Inst(Parameter::Null, Cmd::new(k))
}

fn press(editor: &mut Editor, keys: &str) {
    for c in keys.chars() {
        editor.exec(key(c));
    }
}

fn nothing(request: Request) -> bool {
    matches!(request, Request::Nothing)
}

#[test]
fn newline_at_line_end_opens_an_empty_row() {
    let mut editor = editor_in(&["ab", "cd"], (2, 0));
    editor.options.autoindent = false;
    editor.set_mode(INSERT);
    editor.exec(key('\n'));
    assert_eq!(shown(&editor), vec!["ab", "", "cd"]);
    assert_eq!(editor.pos(), (0, 1));
    assert_eq!(editor.cursor().mode, INSERT);
}

#[test]
fn x_past_the_last_character_deletes_it() {
    let mut editor = editor_in(&["hello"], (5, 0));
    editor.exec(key('x'));
    assert_eq!(shown(&editor), vec!["hell"]);
    assert_eq!(editor.pos(), (3, 0));
    assert_eq!((editor.cursor().x, editor.cursor().y), (3, 0));
}

#[test]
fn d_then_j_removes_two_rows() {
    let mut editor = editor_in(&["one", "two", "three"], (0, 0));
    editor.exec(key('d'));
    assert_eq!(editor.pending, Pending::Motion(Operator::Delete));
    assert_eq!(shown(&editor), vec!["one", "two", "three"]);
    editor.exec(key('j'));
    assert_eq!(shown(&editor), vec!["three"]);
    assert_eq!(editor.pending, Pending::Nothing);
}

#[test]
fn a_document_takes_255_cursors() {
    let mut editor = Editor::new();
    for _ in 0..254 {
        editor.exec(key('b'));
    }
    assert_eq!(editor.buffers.current_buffer_info().cursors.len(), 255);
    assert_eq!(editor.status_bar.msg, "Welcome to Sodium!");
    editor.exec(key('b'));
    assert_eq!(editor.buffers.current_buffer_info().cursors.len(), 255);
    assert_eq!(editor.status_bar.msg, "At max 255 cursors");
    editor.exec(key('b'));
    assert_eq!(editor.buffers.current_buffer_info().cursors.len(), 255);
}

#[test]
fn dd_on_the_only_line_clears_it() {
    let mut editor = editor_in(&["x"], (0, 0));
    editor.exec(key('d'));
    editor.exec(key('d'));
    assert_eq!(shown(&editor), vec![""]);
    assert_eq!(editor.buffers.current_buffer().len(), 1);
    assert_eq!(editor.pending, Pending::Nothing);
}

#[test]
fn dd_removes_the_row_of_the_cursor() {
    let mut editor = editor_in(&["one", "two", "three"], (1, 1));
    press(&mut editor, "dd");
    assert_eq!(shown(&editor), vec!["one", "three"]);
}

#[test]
fn mode_keys() {
    let mut editor = editor_in(&["  hello"], (3, 0));
    editor.exec(key('i'));
    assert_eq!(editor.cursor().mode, INSERT);
    assert_eq!(editor.pos(), (3, 0));
    editor.exec(special(Key::Escape));
    assert_eq!(editor.cursor().mode, NORMAL);
    assert_eq!(editor.pos(), (2, 0));
    editor.exec(key('a'));
    assert_eq!(editor.cursor().mode, INSERT);
    assert_eq!(editor.pos(), (3, 0));
    editor.exec(Inst(Parameter::Null, Cmd { key: Key::Char(' '), shift: true, alt: false, ctrl: false }));
    assert_eq!(editor.cursor().mode, NORMAL);
    assert_eq!(editor.pos(), (2, 0));
    editor.exec(key('A'));
    assert_eq!(editor.pos(), (7, 0));
    editor.exec(special(Key::Escape));
    editor.exec(key('I'));
    assert_eq!(editor.cursor().mode, INSERT);
    assert_eq!(editor.pos(), (0, 0));
    editor.exec(special(Key::Escape));
    editor.exec(key('R'));
    assert_eq!(editor.cursor().mode, REPLACE);
    editor.exec(special(Key::Escape));
    editor.exec(key(';'));
    assert_eq!(editor.cursor().mode, PROMPT);
    editor.exec(special(Key::Escape));
    assert_eq!(editor.cursor().mode, NORMAL);
    assert_eq!(editor.prompt.len(), 2);
}

#[test]
fn o_opens_an_indented_line() {
    let mut editor = editor_in(&["\tfirst", "second"], (2, 0));
    editor.exec(key('o'));
    assert_eq!(shown(&editor), vec!["\tfirst", "\t", "second"]);
    assert_eq!(editor.pos(), (1, 1));
    assert_eq!(editor.cursor().mode, INSERT);
    assert_eq!(editor.redraw_task, RedrawTask::LinesAfter(0));
    let mut plain = editor_in(&["\tfirst"], (0, 0));
    plain.options.autoindent = false;
    plain.exec(key('o'));
    assert_eq!(shown(&plain), vec!["\tfirst", ""]);
    assert_eq!(plain.pos(), (0, 1));
}

#[test]
fn typing_in_insert_mode() {
    let mut editor = editor_in(&[""], (0, 0));
    editor.options.autoindent = false;
    press(&mut editor, "ihi\nyou");
    assert_eq!(shown(&editor), vec!["hi", "you"]);
    editor.exec(special(Key::Backspace));
    assert_eq!(shown(&editor), vec!["hi", "yo"]);
    editor.exec(special(Key::Tab));
    assert_eq!(shown(&editor), vec!["hi", "yo    "]);
    editor.exec(special(Key::Escape));
    assert_eq!(editor.cursor().mode, NORMAL);
    assert_eq!(editor.pos(), (5, 1));
}

#[test]
fn moves_report_the_cursor() {
    let mut editor = editor_in(&["hello", "ab", "xyz"], (1, 0));
    editor.exec(key('l'));
    assert_eq!(editor.pos(), (2, 0));
    assert_eq!(editor.redraw_task, RedrawTask::Cursor((1, 0), (2, 0)));
    editor.exec(counted(9, 'l'));
    assert_eq!(editor.pos(), (4, 0));
    editor.exec(key('j'));
    assert_eq!(editor.pos(), (2, 1));
    assert_eq!(editor.cursor().x, 4);
    editor.exec(counted(2, 'h'));
    assert_eq!(editor.pos(), (0, 1));
    editor.exec(key('k'));
    assert_eq!(editor.pos(), (0, 0));
    editor.exec(special(Key::Down));
    editor.exec(special(Key::Right));
    assert_eq!(editor.pos(), (1, 1));
    editor.exec(special(Key::Up));
    editor.exec(special(Key::Left));
    assert_eq!(editor.pos(), (0, 0));
    editor.exec(key('J'));
    assert_eq!(editor.pos(), (0, 2));
    editor.exec(key('K'));
    assert_eq!(editor.pos(), (0, 0));
    assert_eq!(times_fifteen(2), 30);
    assert_eq!(times_fifteen(usize::MAX), usize::MAX);
}

#[test]
fn line_start_and_end() {
    let mut editor = editor_in(&["hello", ""], (2, 0));
    editor.exec(key('L'));
    assert_eq!(editor.pos(), (4, 0));
    editor.exec(key('H'));
    assert_eq!(editor.pos(), (0, 0));
    assert_eq!(editor.redraw_task, RedrawTask::Cursor((4, 0), (0, 0)));
    editor.exec(key('$'));
    assert_eq!(editor.pos(), (4, 0));
    editor.exec(key('0'));
    assert_eq!(editor.pos(), (0, 0));
    editor.exec(key('j'));
    editor.exec(key('L'));
    assert_eq!(editor.pos(), (0, 1));
}

#[test]
fn jumps_by_row() {
    let mut editor = editor_in(&["a", "b", "c", "d"], (0, 0));
    editor.exec(key('G'));
    assert_eq!(editor.pos(), (0, 3));
    editor.exec(counted(2, 'g'));
    assert_eq!(editor.pos(), (0, 1));
    assert_eq!(editor.buffers.current_buffer().focus_row(), 1);
    editor.exec(counted(99, 'g'));
    assert_eq!(editor.pos(), (0, 3));
    editor.exec(key('g'));
    assert_eq!(editor.pending, Pending::Motion(Operator::Jump(true)));
    editor.exec(key('g'));
    assert_eq!(editor.pending, Pending::Motion(Operator::Jump(true)));
    editor.exec(counted(1, 'g'));
    assert_eq!(editor.pos(), (0, 0));
    assert_eq!(editor.pending, Pending::Nothing);
    assert_eq!(editor.redraw_task, RedrawTask::Cursor((0, 3), (0, 0)));
}

#[test]
fn big_x_deletes_backwards() {
    let mut editor = editor_in(&["hello"], (2, 0));
    editor.exec(key('X'));
    assert_eq!(shown(&editor), vec!["hllo"]);
    assert_eq!(editor.pos(), (1, 0));
    let mut start = editor_in(&["hello"], (0, 0));
    start.exec(key('X'));
    assert_eq!(shown(&start), vec!["hello"]);
    assert_eq!(start.status_bar.msg, "Can't delete file start");
}

#[test]
fn x_on_an_empty_line_joins() {
    let mut editor = editor_in(&["", "ab"], (0, 0));
    editor.exec(key('x'));
    assert_eq!(shown(&editor), vec!["ab"]);
}

#[test]
fn r_replaces_the_character() {
    let mut editor = editor_in(&["hello", ""], (1, 0));
    editor.exec(key('r'));
    assert_eq!(editor.pending, Pending::Replace);
    editor.exec(special(Key::Up));
    assert_eq!(editor.pending, Pending::Replace);
    editor.exec(key('a'));
    assert_eq!(shown(&editor), vec!["hallo", ""]);
    assert_eq!(editor.pending, Pending::Nothing);
    assert_eq!(editor.redraw_task, RedrawTask::Lines(0..1));
    editor.goto((0, 1));
    press(&mut editor, "r5");
    assert_eq!(shown(&editor), vec!["hallo", "5"]);
}

#[test]
fn quit_gives_a_waiting_command_up() {
    let mut editor = editor_in(&["abc"], (0, 0));
    editor.exec(key('d'));
    editor.exec(special(Key::Quit));
    assert_eq!(editor.pending, Pending::Nothing);
    editor.exec(key('r'));
    editor.exec(special(Key::Quit));
    assert_eq!(editor.pending, Pending::Nothing);
    editor.exec(key('t'));
    editor.exec(special(Key::Quit));
    assert_eq!(editor.pending, Pending::Nothing);
    assert_eq!(shown(&editor), vec!["abc"]);
}

#[test]
fn delete_with_motions() {
    let mut editor = editor_in(&["hello world"], (6, 0));
    press(&mut editor, "dh");
    assert_eq!(shown(&editor), vec!["helloworld"]);
    let mut right = editor_in(&["hello world"], (0, 0));
    right.exec(key('d'));
    right.exec(counted(6, 'l'));
    assert_eq!(shown(&right), vec!["world"]);
    let mut to_end = editor_in(&["hello world"], (5, 0));
    press(&mut to_end, "dL");
    assert_eq!(shown(&to_end), vec!["hello"]);
    let mut to_start = editor_in(&["hello world"], (6, 0));
    press(&mut to_start, "dH");
    assert_eq!(shown(&to_start), vec!["world"]);
    let mut far_left = editor_in(&["hello"], (2, 0));
    far_left.exec(key('d'));
    far_left.exec(counted(9, 'h'));
    assert_eq!(shown(&far_left), vec!["llo"]);
    let mut up = editor_in(&["a", "b", "c"], (0, 0));
    press(&mut up, "dk");
    assert_eq!(shown(&up), vec!["b", "c"]);
    let mut last = editor_in(&["a", "b", "c"], (0, 1));
    press(&mut last, "dG");
    assert_eq!(shown(&last), vec!["a"]);
    let mut row = editor_in(&["a", "b", "c"], (0, 2));
    row.exec(key('d'));
    row.exec(counted(1, 'g'));
    assert_eq!(shown(&row), vec![""]);
}

#[test]
fn delete_to_a_found_character() {
    let mut editor = editor_in(&["a,b,c"], (0, 0));
    editor.exec(key('d'));
    editor.exec(counted(2, 't'));
    assert_eq!(editor.pending, Pending::Find(true, 2, Operator::Delete));
    editor.exec(key(','));
    assert_eq!(shown(&editor), vec![",c"]);
    let mut back = editor_in(&["a,b,c"], (4, 0));
    press(&mut back, "df,");
    assert_eq!(shown(&back), vec!["a,bc"]);
    let mut none = editor_in(&["abc"], (0, 0));
    press(&mut none, "dtz");
    assert_eq!(shown(&none), vec!["abc"]);
    assert_eq!(none.pending, Pending::Nothing);
}

#[test]
fn change_removes_and_enters_insert_mode() {
    let mut editor = editor_in(&["hello world"], (0, 0));
    editor.exec(key('c'));
    editor.exec(counted(6, 'l'));
    assert_eq!(shown(&editor), vec!["world"]);
    assert_eq!(editor.cursor().mode, INSERT);
    let mut no_motion = editor_in(&["hello"], (0, 0));
    press(&mut no_motion, "cq");
    assert_eq!(no_motion.cursor().mode, NORMAL);
    assert_eq!(no_motion.status_bar.msg, "Motion not defined: 'q'");
    assert_eq!(no_motion.pending, Pending::Nothing);
}

#[test]
fn unknown_motion_keys_leave_a_message() {
    let mut editor = editor_in(&["hello"], (0, 0));
    editor.exec(key('d'));
    editor.exec(special(Key::Tab));
    assert_eq!(editor.status_bar.msg, "Motion not defined");
    assert_eq!(editor.redraw_task, RedrawTask::StatusBar);
    assert_eq!(shown(&editor), vec!["hello"]);
    assert_eq!(editor.to_motion(key('w')), Motion::Nowhere);
    assert_eq!(editor.to_motion_unbounded(key('w')), Motion::Nowhere);
}

#[test]
fn motions_name_places() {
    let mut editor = editor_in(&["hello", "ab"], (2, 0));
    assert_eq!(editor.to_motion(key('h')), Motion::To((1, 0)));
    assert_eq!(editor.to_motion(counted(9, 'l')), Motion::To((4, 0)));
    assert_eq!(editor.to_motion(key('j')), Motion::To((2, 1)));
    assert_eq!(editor.to_motion(key('k')), Motion::To((2, 0)));
    assert_eq!(editor.to_motion(counted(2, 'g')), Motion::To((0, 1)));
    assert_eq!(editor.to_motion(counted(0, 'g')), Motion::To((0, usize::MAX)));
    assert_eq!(editor.to_motion(key('g')), Motion::Next);
    assert_eq!(editor.to_motion(key('G')), Motion::To((0, 1)));
    assert_eq!(editor.to_motion(key('L')), Motion::To((4, 0)));
    assert_eq!(editor.to_motion(key('H')), Motion::To((0, 0)));
    assert_eq!(editor.to_motion(counted(3, 't')), Motion::Find(true, 3));
    assert_eq!(editor.to_motion(key('f')), Motion::Find(false, 1));
    assert_eq!(editor.to_motion_unbounded(counted(5, 'h')), Motion::To((-3, 0)));
    assert_eq!(editor.to_motion_unbounded(counted(9, 'l')), Motion::To((11, 0)));
    assert_eq!(editor.to_motion_unbounded(counted(3, 'j')), Motion::To((2, 3)));
    assert_eq!(editor.to_motion_unbounded(counted(3, 'k')), Motion::To((2, -3)));
    assert_eq!(editor.to_motion_unbounded(counted(2, 'g')), Motion::To((0, 1)));
    assert_eq!(editor.to_motion_unbounded(counted(0, 'g')), Motion::To((0, -1)));
    assert_eq!(editor.to_motion_unbounded(key('g')), Motion::Next);
    assert_eq!(editor.to_motion_unbounded(key('G')), Motion::To((0, 1)));
    assert_eq!(editor.to_motion_unbounded(key('L')), Motion::To((5, 0)));
    assert_eq!(editor.to_motion_unbounded(key('H')), Motion::To((0, 0)));
    assert_eq!(editor.to_motion_unbounded(key('t')), Motion::Find(true, 1));
    assert_eq!(editor.status_bar.msg, "Welcome to Sodium!");
}

#[test]
fn find_character_jumps() {
    let mut editor = editor_in(&["a,b,c"], (0, 0));
    press(&mut editor, "t,");
    assert_eq!(editor.pos(), (1, 0));
    assert_eq!(editor.redraw_task, RedrawTask::Cursor((0, 0), (1, 0)));
    press(&mut editor, "t,");
    assert_eq!(editor.pos(), (3, 0));
    press(&mut editor, "t,");
    assert_eq!(editor.pos(), (3, 0));
    press(&mut editor, "f,");
    assert_eq!(editor.pos(), (1, 0));
}

#[test]
fn alt_takes_a_key_as_a_motion() {
    let mut editor = editor_in(&["hello", "ab"], (0, 0));
    editor.set_mode(INSERT);
    let alt_j = Inst(Parameter::Null, Cmd { key: Key::Char('j'), shift: false, alt: true, ctrl: false });
    editor.exec(alt_j);
    assert_eq!(editor.pos(), (0, 1));
    assert_eq!(editor.cursor().mode, INSERT);
    assert_eq!(shown(&editor), vec!["hello", "ab"]);
    assert_eq!(editor.redraw_task, RedrawTask::Null);
}

#[test]
fn cursors_branch_and_die() {
    let mut editor = editor_in(&["hello"], (2, 0));
    editor.exec(key('b'));
    assert_eq!(editor.buffers.current_buffer_info().cursors.len(), 2);
    assert_eq!(editor.buffers.current_buffer_info().current_cursor, 1);
    editor.exec(key('l'));
    assert_eq!(editor.pos(), (3, 0));
    editor.exec(key(' '));
    assert_eq!(editor.buffers.current_buffer_info().current_cursor, 0);
    assert_eq!(editor.pos(), (2, 0));
    let alt_space = Inst(Parameter::Null, Cmd { key: Key::Char(' '), shift: false, alt: true, ctrl: false });
    editor.exec(alt_space);
    assert_eq!(editor.buffers.current_buffer_info().current_cursor, 1);
    editor.prev_cursor();
    assert_eq!(editor.buffers.current_buffer_info().current_cursor, 0);
    editor.prev_cursor();
    assert_eq!(editor.buffers.current_buffer_info().current_cursor, 1);
    editor.exec(key('B'));
    assert_eq!(editor.buffers.current_buffer_info().cursors.len(), 1);
    assert_eq!(editor.buffers.current_buffer_info().current_cursor, 0);
    assert_eq!(editor.pos(), (2, 0));
    editor.exec(key('B'));
    assert_eq!(editor.buffers.current_buffer_info().cursors.len(), 1);
    assert_eq!(editor.status_bar.msg, "No other cursors!");
}

#[test]
fn killing_the_first_cursor_goes_to_the_last() {
    let mut editor = editor_in(&["hello"], (0, 0));
    press(&mut editor, "bb  ");
    assert_eq!(editor.buffers.current_buffer_info().cursors.len(), 3);
    editor.next_cursor();
    editor.next_cursor();
    editor.next_cursor();
    let current = editor.buffers.current_buffer_info().current_cursor;
    for _ in 0..current {
        editor.prev_cursor();
    }
    assert_eq!(editor.buffers.current_buffer_info().current_cursor, 0);
    editor.kill_cursor();
    assert_eq!(editor.buffers.current_buffer_info().cursors.len(), 2);
    assert_eq!(editor.buffers.current_buffer_info().current_cursor, 1);
}

#[test]
fn scrolling() {
    let mut editor = editor_in(&["a", "b", "c", "d", "e", "f"], (0, 0));
    editor.exec(counted(4, 'z'));
    assert_eq!(editor.buffers.current_buffer_info().scroll_y, 4);
    assert_eq!(editor.redraw_task, RedrawTask::Full);
    editor.exec(key('z'));
    assert_eq!(editor.pending, Pending::Motion(Operator::Scroll));
    editor.exec(counted(2, 'j'));
    assert_eq!(editor.buffers.current_buffer_info().scroll_y, 2);
    assert_eq!(editor.pos(), (0, 2));
    editor.exec(key('G'));
    editor.exec(key('Z'));
    assert_eq!(editor.buffers.current_buffer_info().scroll_y, 2);
    editor.exec(counted(1, 'g'));
    editor.exec(key('Z'));
    assert_eq!(editor.buffers.current_buffer_info().scroll_y, 0);
}

#[test]
fn tilde_inverts() {
    let mut editor = editor_in(&["ab(c"], (0, 0));
    editor.exec(counted(3, '~'));
    assert_eq!(shown(&editor), vec!["AB)c"]);
    assert_eq!(editor.pos(), (3, 0));
}

#[test]
fn dot_repeats_the_last_instruction() {
    let mut editor = editor_in(&["hello world"], (0, 0));
    editor.exec(key('.'));
    assert_eq!(editor.status_bar.msg, "No previous command");
    assert_eq!(editor.previous_instruction, None);
    editor.exec(key('x'));
    assert_eq!(editor.previous_instruction, Some(key('x')));
    editor.exec(key('.'));
    editor.exec(key('.'));
    assert_eq!(shown(&editor), vec!["lo world"]);
    assert_eq!(editor.previous_instruction, Some(key('x')));
    editor.exec(key('d'));
    editor.exec(key('l'));
    assert_eq!(editor.previous_instruction, Some(key('d')));
    editor.exec(key('.'));
    assert_eq!(editor.pending, Pending::Motion(Operator::Delete));
    editor.exec(counted(2, 'l'));
    assert_eq!(shown(&editor), vec!["world"]);
}

#[test]
fn a_stored_dot_is_not_repeated() {
    let mut editor = editor_in(&["hello"], (0, 0));
    editor.previous_instruction = Some(key('.'));
    editor.exec(key('.'));
    assert_eq!(editor.status_bar.msg, "No previous command");
    assert_eq!(shown(&editor), vec!["hello"]);
}

#[test]
fn unknown_keys_leave_a_message() {
    let mut editor = editor_in(&["hello"], (0, 0));
    editor.exec(key('Q'));
    assert_eq!(editor.status_bar.msg, "Unknown command: Q");
    assert_eq!(editor.redraw_task, RedrawTask::StatusBar);
    editor.exec(special(Key::Tab));
    assert_eq!(editor.status_bar.msg, "Unknown command");
    editor.exec(special(Key::Unknown(9)));
    assert_eq!(editor.status_bar.msg, "Unknown command");
    assert_eq!(shown(&editor), vec!["hello"]);
    assert_eq!(editor.cursor().mode, NORMAL);
}

#[test]
fn prompt_takes_text() {
    let mut editor = Editor::new();
    press(&mut editor, ";sxt");
    editor.exec(special(Key::Backspace));
    editor.exec(special(Key::Backspace));
    press(&mut editor, "et ro");
    assert_eq!(editor.prompt[0].to_string(), "set ro");
    assert!(!editor.options.readonly);
    let request = editor.exec(key('\n'));
    assert!(nothing(request));
    assert!(editor.options.readonly);
    assert_eq!(editor.status_bar.msg, "Option set: ro");
    assert_eq!(editor.cursor().mode, NORMAL);
    assert_eq!(editor.prompt.len(), 2);
    assert_eq!(editor.prompt[0].to_string(), "");
    assert_eq!(editor.prompt[1].to_string(), "set ro");
    assert_eq!(editor.prompt_index, 0);
}

#[test]
fn prompt_history() {
    let mut editor = Editor::new();
    press(&mut editor, ";get ai\n");
    assert_eq!(editor.status_bar.msg, "Option set: ai");
    editor.exec(key(';'));
    editor.exec(special(Key::Up));
    assert_eq!(editor.prompt_index, 1);
    editor.exec(special(Key::Up));
    assert_eq!(editor.prompt_index, 1);
    editor.exec(special(Key::Down));
    assert_eq!(editor.prompt_index, 0);
    editor.exec(special(Key::Down));
    assert_eq!(editor.prompt_index, 0);
    editor.exec(special(Key::Up));
    editor.exec(key('\n'));
    assert_eq!(editor.prompt_index, 0);
    assert_eq!(editor.prompt.len(), 3);
    assert_eq!(editor.prompt[0].to_string(), "");
    assert_eq!(editor.prompt[1].to_string(), "get ai");
    editor.exec(key(';'));
    editor.exec(special(Key::Backspace));
    editor.exec(key('\n'));
    assert_eq!(editor.status_bar.msg, "Unknown command: ");
    assert_eq!(editor.prompt.len(), 3);
    editor.exec(key(';'));
    editor.exec(special(Key::Tab));
    assert_eq!(editor.status_bar.msg, "Unknown command");
}

#[test]
fn prompt_commands_change_options() {
    let mut editor = Editor::new();
    assert!(nothing(editor.invoke(PromptCommand::Unset { option: "hl".to_string() })));
    assert!(!editor.options.highlight);
    assert_eq!(editor.status_bar.msg, "Option unset: hl");
    editor.invoke(PromptCommand::Toggle { option: "hl".to_string() });
    assert!(editor.options.highlight);
    assert_eq!(editor.status_bar.msg, "Option toggled: hl");
    editor.invoke(PromptCommand::Get { option: "ro".to_string() });
    assert_eq!(editor.status_bar.msg, "Option unset: ro");
    editor.invoke(PromptCommand::Get { option: "zz".to_string() });
    assert_eq!(editor.status_bar.msg, "Option does not exist: zz");
    editor.invoke(PromptCommand::SetOption { option: "zz".to_string() });
    assert_eq!(editor.status_bar.msg, "Option does not exist: zz");
    editor.invoke(PromptCommand::Toggle { option: "zz".to_string() });
    assert_eq!(editor.status_bar.msg, "Option does not exist: zz");
    assert_eq!(editor.redraw_task, RedrawTask::StatusBar);
}

#[test]
fn prompt_asks_the_host_for_files() {
    let mut editor = editor_in(&["ab", "cd"], (0, 0));
    press(&mut editor, ";o a.txt");
    match editor.exec(key('\n')) {
        Request::Open(path) => assert_eq!(path, "a.txt"),
        _ => panic!("no request to open"),
    }
    match editor.invoke(PromptCommand::Write { path: "b.txt".to_string() }) {
        Request::Write(path, text) => {
            assert_eq!(path, "b.txt");
            assert_eq!(text, "ab\ncd\n");
        }
        _ => panic!("no request to write"),
    }
    assert_eq!(editor.buffers.current_buffer_info().title, Some("b.txt".to_string()));
    assert!(nothing(editor.invoke(PromptCommand::Write { path: String::new() })));
    assert_eq!(editor.status_bar.msg, "Couldn't write ");
    editor.options.readonly = true;
    assert!(nothing(editor.invoke(PromptCommand::Write { path: "c.txt".to_string() })));
    assert_eq!(editor.status_bar.msg, "File c.txt is opened in readonly mode");
    assert!(matches!(editor.invoke(PromptCommand::Help), Request::Help));
    assert!(matches!(editor.invoke(PromptCommand::Quit), Request::Quit));
}

#[test]
fn file_answers() {
    let mut editor = Editor::new();
    editor.opened("a.txt", Some("one\ntwo\n"));
    assert_eq!(shown(&editor), vec!["one", "two"]);
    assert_eq!(editor.status_bar.msg, "File a.txt opened");
    assert_eq!(editor.buffers.len(), 1);
    assert_eq!(editor.buffers.current_buffer_info().title, Some("a.txt".to_string()));
    editor.opened("missing", None);
    assert_eq!(editor.status_bar.msg, "File missing could not be opened");
    assert_eq!(editor.buffers.len(), 1);
    assert_eq!(editor.open("b.txt", Some("")), FileStatus::Done);
    assert_eq!(shown(&editor), vec![""]);
    assert_eq!(editor.buffers.len(), 2);
    assert_eq!(editor.buffers.current_buffer_index(), 1);
    assert_eq!(editor.open("c.txt", None), FileStatus::NotFound);
    assert_eq!(editor.buffers.len(), 2);
    editor.written("b.txt", FileStatus::Done);
    assert_eq!(editor.status_bar.msg, "File b.txt written");
    editor.written("b.txt", FileStatus::NotFound);
    assert_eq!(editor.status_bar.msg, "File b.txt could not be opened");
    editor.written("b.txt", FileStatus::Other);
    assert_eq!(editor.status_bar.msg, "Couldn't write b.txt");
    assert_eq!(editor.write(""), None);
    assert_eq!(editor.write("d.txt"), Some("\n".to_string()));
    assert!(editor.is_blank());
}

#[test]
fn buffers_are_listed_and_switched() {
    let mut editor = Editor::new();
    editor.open("a.txt", Some("one"));
    editor.invoke(PromptCommand::CreateBuffer);
    assert_eq!(editor.buffers.len(), 3);
    assert_eq!(editor.buffers.current_buffer_index(), 2);
    assert_eq!(editor.status_bar.msg, "Switched to buffer#2");
    editor.invoke(PromptCommand::ListBuffers);
    assert_eq!(
        shown(&editor),
        vec![
            "Buffers",
            "=====================================",
            "",
            "b0\t\t\t<No Title>",
            "b1\t\t\ta.txt",
            "b2\t\t\t<No Title>",
        ]
    );
    assert_eq!(editor.buffers.len(), 4);
    assert!(editor.buffers.current_buffer_info().is_transient);
    assert!(editor.buffers.is_buffer_index_valid(2));
    assert!(!editor.buffers.is_buffer_index_valid(3));
    editor.invoke(PromptCommand::SwitchToBuffer { buffer_index: 7 });
    assert_eq!(editor.status_bar.msg, "Invalid buffer #7");
    editor.invoke(PromptCommand::SwitchToBuffer { buffer_index: 1 });
    assert_eq!(editor.status_bar.msg, "Switched to buffer #1");
    assert_eq!(editor.buffers.len(), 3);
    assert_eq!(editor.buffers.current_buffer_index(), 1);
    assert_eq!(shown(&editor), vec!["one"]);
    editor.invoke(PromptCommand::SwitchToBuffer { buffer_index: 1 });
    assert_eq!(editor.status_bar.msg, "Already in buffer #1");
    editor.invoke(PromptCommand::DeleteBuffer);
    assert_eq!(editor.buffers.len(), 2);
    assert_eq!(editor.buffers.current_buffer_index(), 0);
    assert_eq!(editor.get_buffers_description().len(), 5);
}

#[test]
fn buffer_manager_rules() {
    let mut manager = BufferManager::new();
    assert_eq!(manager.len(), 1);
    assert_eq!(manager.current_buffer_index(), 0);
    manager.delete_buffer(0);
    assert_eq!(manager.len(), 1);
    assert_eq!(manager.current_buffer_index(), 0);
    assert_eq!(manager.new_buffer(Buffer::from(SplitBuffer::from_str("b"))), 1);
    assert_eq!(manager.new_buffer(Buffer::from(SplitBuffer::from_str("c"))), 2);
    let mut transient = Buffer::new();
    transient.is_transient = true;
    assert_eq!(manager.new_buffer(transient), 3);
    assert_eq!(manager.iter().len(), 4);
    manager.switch_to(3);
    assert_eq!(manager.current_buffer_index(), 3);
    manager.switch_to(1);
    assert_eq!(manager.len(), 3);
    assert_eq!(manager.current_buffer_index(), 1);
    assert_eq!(manager.current_buffer().to_string(), "b\n");
    manager.switch_to(2);
    assert_eq!(manager.current_buffer_index(), 2);
    manager.delete_buffer(0);
    assert_eq!(manager.current_buffer_index(), 1);
    assert_eq!(manager.current_buffer().to_string(), "c\n");
    manager.delete_buffer(1);
    assert_eq!(manager.current_buffer_index(), 0);
    assert_eq!(manager.current_buffer().to_string(), "b\n");
    manager.switch_to(0);
    manager.new_buffer(Buffer::new());
    manager.delete_buffer(1);
    assert_eq!(manager.current_buffer_index(), 0);
}

#[test]
fn current_buffer_mut_hands_out_the_text() {
    let mut manager = BufferManager::new();
    manager.new_buffer(Buffer::from(SplitBuffer::from_str("b\nc")));
    manager.switch_to(1);
    manager.current_buffer_mut().insert_line(1, Line::from_str("new"));
    manager.current_buffer_mut().focus_hint_y(2);
    manager.current_buffer_mut().get_line_mut(0).unwrap().push('!');
    assert_eq!(manager.current_buffer().to_string(), "b!\nnew\nc\n");
    assert_eq!(manager.current_buffer().focus_row(), 2);
    assert_eq!(manager.current_buffer_info().raw_buffer.len(), 3);
    manager.switch_to(0);
    assert_eq!(manager.current_buffer().to_string(), "\n");
}

#[test]
fn switching_away_from_a_transient_buffer_before_the_target() {
    let mut manager = BufferManager::new();
    let mut transient = Buffer::new();
    transient.is_transient = true;
    manager.new_buffer(transient);
    manager.new_buffer(Buffer::from(SplitBuffer::from_str("c")));
    manager.switch_to(1);
    manager.switch_to(2);
    assert_eq!(manager.len(), 2);
    assert_eq!(manager.current_buffer_index(), 1);
    assert_eq!(manager.current_buffer().to_string(), "c\n");
}

#[test]
fn feed_runs_the_whole_pipeline() {
    let mut editor = editor_in(&["hello", "world"], (0, 0));
    let typed = |c: char| KeyEvent { character: c, scancode: 0, pressed: true };
    for c in "2x".chars() {
        editor.feed(typed(c));
    }
    assert_eq!(shown(&editor), vec!["ello", "world"]);
    for c in "r5".chars() {
        editor.feed(typed(c));
    }
    assert_eq!(shown(&editor), vec!["5llo", "world"]);
    assert_eq!(editor.pending, Pending::Nothing);
    for c in "d2l".chars() {
        editor.feed(typed(c));
    }
    assert_eq!(shown(&editor), vec!["lo", "world"]);
    editor.feed(KeyEvent { character: '\0', scancode: orbclient::K_LEFT_SHIFT, pressed: true });
    editor.feed(typed('i'));
    assert_eq!(editor.cursor().mode, INSERT);
    editor.feed(typed(' '));
    assert_eq!(editor.cursor().mode, NORMAL);
    assert_eq!(shown(&editor), vec!["lo", "world"]);
    assert!(editor.awaits_char() == false);
}
