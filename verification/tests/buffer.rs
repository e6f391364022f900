use sodium::edit::buffer::SplitBuffer;
use sodium::edit::line::Line;

fn lines_of(buffer: &SplitBuffer) -> Vec<String> {
    buffer.lines().collect().iter().map(|l| l.to_string()).collect()
}

fn buffer_of(lines: &[&str]) -> SplitBuffer {
    let lines: Vec<Line> = lines.iter().map(|l| Line::from_str(l)).collect();
    SplitBuffer::from_lines(&lines)
}

#[test]
fn new_buffer_has_one_empty_line() {
    let buffer = SplitBuffer::new();
    assert_eq!(buffer.len(), 1);
    assert_eq!(buffer.focus_row(), 0);
    assert_eq!(lines_of(&buffer), vec![String::new()]);
}

#[test]
fn from_lines_round_trip() {
    let buffer = buffer_of(&["one", "two", "three"]);
    assert_eq!(buffer.len(), 3);
    assert_eq!(buffer.focus_row(), 0);
    assert_eq!(lines_of(&buffer), vec!["one", "two", "three"]);
    let single = buffer_of(&["only"]);
    assert_eq!(lines_of(&single), vec!["only"]);
}

#[test]
fn from_lines_without_lines_gives_one_empty_line() {
    let buffer = SplitBuffer::from_lines(&[]);
    assert_eq!(lines_of(&buffer), vec![""]);
}

#[test]
fn from_str_splits_at_line_feeds() {
    let buffer = SplitBuffer::from_str("a\r\nb\n\nc");
    assert_eq!(lines_of(&buffer), vec!["a", "b", "", "c"]);
    assert_eq!(lines_of(&SplitBuffer::from_str("a\n")), vec!["a"]);
    assert_eq!(lines_of(&SplitBuffer::from_str("")), vec![""]);
    assert_eq!(lines_of(&SplitBuffer::from_str("\n")), vec![""]);
    assert_eq!(lines_of(&SplitBuffer::from_str("x\r")), vec!["x\r"]);
}

#[test]
fn to_string_ends_every_line_with_a_line_feed() {
    let buffer = buffer_of(&["ab", "", "c"]);
    assert_eq!(buffer.to_string(), "ab\n\nc\n");
    assert_eq!(SplitBuffer::new().to_string(), "\n");
}

#[test]
fn get_line_by_row() {
    let mut buffer = buffer_of(&["a", "b", "c", "d"]);
    buffer.focus_hint_y(1);
    assert_eq!(buffer.get_line(0).unwrap().to_string(), "a");
    assert_eq!(buffer.get_line(1).unwrap().to_string(), "b");
    assert_eq!(buffer.get_line(2).unwrap().to_string(), "c");
    assert_eq!(buffer.get_line(3).unwrap().to_string(), "d");
    assert!(buffer.get_line(4).is_none());
    assert!(buffer.get_line_mut(4).is_none());
}

#[test]
fn get_line_mut_changes_one_row() {
    let mut buffer = buffer_of(&["a", "b", "c"]);
    buffer.focus_hint_y(1);
    buffer.get_line_mut(2).unwrap().push('!');
    buffer.get_line_mut(0).unwrap().insert(0, '>');
    assert_eq!(lines_of(&buffer), vec![">a", "b", "c!"]);
    assert_eq!(buffer.focus_row(), 1);
}

#[test]
fn insert_line_shifts_the_rows_below() {
    for focus in 0..3 {
        for n in 0..4 {
            let mut buffer = buffer_of(&["a", "b", "c"]);
            buffer.focus_hint_y(focus);
            buffer.insert_line(n, Line::from_str("new"));
            let mut expected = vec!["a", "b", "c"];
            expected.insert(n, "new");
            assert_eq!(lines_of(&buffer), expected);
            assert_eq!(buffer.len(), 4);
        }
    }
}

#[test]
fn remove_line_returns_the_row() {
    for focus in 0..3 {
        for n in 0..3 {
            let mut buffer = buffer_of(&["a", "b", "c"]);
            buffer.focus_hint_y(focus);
            let removed = buffer.remove_line(n);
            let mut expected = vec!["a", "b", "c"];
            let gone = expected.remove(n);
            assert_eq!(removed.to_string(), gone);
            assert_eq!(lines_of(&buffer), expected);
            assert!(buffer.focus_row() < buffer.len());
        }
    }
}

#[test]
fn line_count_follows_inserts_and_removes() {
    let mut buffer = SplitBuffer::new();
    let mut inserts = 0;
    let mut removes = 0;
    for i in 0..10 {
        buffer.insert_line(i % (buffer.len() + 1), Line::from_str("x"));
        inserts += 1;
        assert_eq!(buffer.len(), 1 + inserts - removes);
    }
    for i in 0..6 {
        buffer.remove_line(i % buffer.len());
        removes += 1;
        assert_eq!(buffer.len(), 1 + inserts - removes);
    }
    assert_eq!(buffer.len(), 5);
}

#[test]
fn focus_hints_leave_the_lines_alone() {
    let mut buffer = buffer_of(&["a", "b", "c", "d", "e"]);
    for y in [4, 0, 2, 2, 3, 1, 4, 0] {
        buffer.focus_hint_y(y);
        buffer.focus_hint_x(7);
        assert_eq!(buffer.focus_row(), y);
        assert_eq!(lines_of(&buffer), vec!["a", "b", "c", "d", "e"]);
    }
}

#[test]
fn get_indent_is_the_leading_blank_run() {
    let buffer = buffer_of(&["  \tcode", "none", "   ", ""]);
    assert_eq!(buffer.get_indent(0).to_string(), "  \t");
    assert_eq!(buffer.get_indent(1).to_string(), "");
    assert_eq!(buffer.get_indent(2).to_string(), "   ");
    assert_eq!(buffer.get_indent(3).to_string(), "");
    assert_eq!(buffer.get_indent(9).to_string(), "");
}

#[test]
fn walk_over_the_lines() {
    let mut buffer = buffer_of(&["a", "b", "c"]);
    buffer.focus_hint_y(2);
    let mut walk = buffer.lines();
    assert_eq!(walk.next().unwrap().to_string(), "a");
    assert_eq!(walk.next().unwrap().to_string(), "b");
    assert_eq!(walk.next().unwrap().to_string(), "c");
    assert!(walk.next().is_none());
    let mut back = buffer.lines_from(2);
    assert_eq!(back.next_back().unwrap().to_string(), "b");
    assert_eq!(back.next_back().unwrap().to_string(), "a");
    assert!(back.next_back().is_none());
    let mut skip = buffer.lines();
    assert_eq!(skip.nth(2).unwrap().to_string(), "a");
    assert_eq!(skip.next().unwrap().to_string(), "c");
    assert_eq!(buffer.lines().count(), 3);
    let rest: Vec<String> = buffer.lines_from(1).collect().iter().map(|l| l.to_string()).collect();
    assert_eq!(rest, vec!["b", "c"]);
    assert!(buffer.lines_from(7).collect().is_empty());
}

#[test]
fn line_editing() {
    let mut line = Line::from_str("hello");
    assert_eq!(line.len(), 5);
    assert!(!line.is_empty());
    assert_eq!(line.get(1), 'e');
    line.insert(5, '!');
    line.insert(0, '>');
    assert_eq!(line.to_string(), ">hello!");
    assert_eq!(line.remove(0), '>');
    line.set_char(0, 'j');
    assert_eq!(line.to_string(), "jello!");
    line.push_slice(&Line::from_str("??"));
    assert_eq!(line.to_string(), "jello!??");
    assert_eq!(line.slice(1, 4).to_string(), "ell");
    let removed = line.drain(1, 5);
    assert_eq!(removed.to_string(), "ello");
    assert_eq!(line.to_string(), "j!??");
    let rest = line.split_off(2);
    assert_eq!(line.to_string(), "j!");
    assert_eq!(rest.to_string(), "??");
    assert!(line.same_as(&Line::from_str("j!")));
    assert!(!line.same_as(&rest));
    assert!(line.is_str("j!"));
    assert_eq!(Line::from_slice(&rest).to_string(), "??");
    assert_eq!(line.clone().to_string(), "j!");
    assert_eq!(line.chars(), &vec!['j', '!']);
    assert_eq!(Line::from_chars(vec!['a', 'b']).to_string(), "ab");
    line.clear();
    assert!(line.is_empty());
    assert_eq!(Line::new().to_string(), "");
}

#[test]
fn line_holds_scalar_values() {
    let line = Line::from_str("añ→z");
    assert_eq!(line.len(), 4);
    assert_eq!(line.get(2), '→');
    assert_eq!(line.to_string(), "añ→z");
    assert_eq!(Line::from_str("\t x").get_indent().to_string(), "\t ");
}

#[test]
fn goto_moves_the_focus_as_far_as_there_are_rows() {
    let mut buffer = buffer_of(&["a", "b", "c"]);
    buffer.goto(2);
    assert_eq!(buffer.focus_row(), 2);
    buffer.goto(0);
    assert_eq!(buffer.focus_row(), 0);
    buffer.goto(40);
    assert_eq!(buffer.focus_row(), 2);
    assert_eq!(lines_of(&buffer), vec!["a", "b", "c"]);
}
