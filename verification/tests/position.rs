use sodium::caret::movement::{saturating_sum, signed_difference};
use sodium::caret::position::{to_signed, to_signed_pos, to_unsigned};
use sodium::edit::buffer::SplitBuffer;
use sodium::edit::line::Line;
use sodium::state::editor::Editor;

fn editor_with(lines: &[&str], cursor: (usize, usize)) -> Editor {
    let mut editor = Editor::new();
    let lines: Vec<Line> = lines.iter().map(|l| Line::from_str(l)).collect();
    editor.buffers.current_buffer_info_mut().raw_buffer = SplitBuffer::from_lines(&lines);
    editor.goto(cursor);
    editor
}

#[test]
fn bound_keeps_positions_in_the_text() {
    let editor = editor_with(&["hello", "", "ab"], (0, 0));
    assert_eq!(editor.bound((3, 0), false), (3, 0));
    assert_eq!(editor.bound((5, 0), false), (5, 0));
    assert_eq!(editor.bound((9, 0), false), (5, 0));
    assert_eq!(editor.bound((5, 0), true), (4, 0));
    assert_eq!(editor.bound((9, 0), true), (4, 0));
    assert_eq!(editor.bound((4, 0), true), (4, 0));
    assert_eq!(editor.bound((7, 1), false), (0, 1));
    assert_eq!(editor.bound((7, 1), true), (0, 1));
    assert_eq!(editor.bound((1, 9), false), (1, 2));
    assert_eq!(editor.bound((usize::MAX, usize::MAX), false), (2, 2));
    assert_eq!(editor.bound((usize::MAX, usize::MAX), true), (1, 2));
}

#[test]
fn bounded_column_is_within_the_line() {
    let editor = editor_with(&["hello", "", "ab", "x"], (0, 0));
    let lens = [5, 0, 2, 1];
    for y in 0..6 {
        for x in 0..8 {
            let (bx, by) = editor.bound((x, y), false);
            assert!(by < 4);
            assert!(bx <= lens[by]);
            let (tx, ty) = editor.bound((x, y), true);
            assert_eq!(ty, by);
            if lens[ty] > 0 {
                assert!(tx < lens[ty]);
            } else {
                assert_eq!(tx, 0);
            }
        }
    }
}

#[test]
fn bound_one_axis_only() {
    let editor = editor_with(&["hello", "ab"], (0, 0));
    assert_eq!(editor.bound_hor((9, 1), false), (2, 1));
    assert_eq!(editor.bound_hor((9, 1), true), (1, 1));
    assert_eq!(editor.bound_hor((9, 7), false), (2, 7));
    assert_eq!(editor.bound_ver((9, 7)), (9, 1));
    assert_eq!(editor.bound_ver((9, 0)), (9, 0));
}

#[test]
fn cursor_position_is_bounded_when_read() {
    let editor = editor_with(&["hello", "ab"], (40, 40));
    assert_eq!(editor.cursor().x, 40);
    assert_eq!(editor.cursor().y, 40);
    assert_eq!(editor.pos(), (2, 1));
    assert_eq!(editor.x(), 2);
    assert_eq!(editor.y(), 1);
    assert_eq!(editor.buffers.current_buffer().focus_row(), 1);
}

#[test]
fn after_walks_across_lines() {
    let editor = editor_with(&["ab", "", "cde"], (0, 0));
    assert_eq!(editor.after(0, (0, 0)), Some((0, 0)));
    assert_eq!(editor.after(1, (0, 0)), Some((1, 0)));
    assert_eq!(editor.after(2, (0, 0)), Some((0, 2)));
    assert_eq!(editor.after(4, (0, 0)), Some((2, 2)));
    assert_eq!(editor.after(5, (0, 0)), None);
    assert_eq!(editor.after(usize::MAX, (1, 0)), None);
    assert_eq!(editor.after(1, (2, 2)), None);
    assert_eq!(editor.after(1, (2, 0)), Some((1, 2)));
}

#[test]
fn before_walks_across_lines() {
    let editor = editor_with(&["ab", "", "cde"], (0, 0));
    assert_eq!(editor.before(1, (2, 2)), Some((1, 2)));
    assert_eq!(editor.before(2, (2, 2)), Some((0, 2)));
    assert_eq!(editor.before(3, (2, 2)), Some((1, 0)));
    assert_eq!(editor.before(4, (2, 2)), Some((0, 0)));
    assert_eq!(editor.before(5, (2, 2)), None);
    assert_eq!(editor.before(1, (0, 0)), None);
    assert_eq!(editor.before(0, (0, 0)), Some((0, 0)));
    assert_eq!(editor.before(1, (0, 1)), Some((1, 0)));
}

#[test]
fn going_on_and_back_leads_home() {
    let editor = editor_with(&["ab", "", "cde", "f"], (0, 0));
    let lens = [2, 0, 3, 1];
    for y in 0..4 {
        for x in 0..lens[y] {
            for n in 0..8 {
                if let Some(q) = editor.after(n, (x, y)) {
                    assert_eq!(editor.before(n, q), Some((x, y)));
                }
            }
        }
    }
}

#[test]
fn previous_and_next_start_at_the_cursor() {
    let editor = editor_with(&["ab", "cd"], (1, 0));
    assert_eq!(editor.next(1), Some((0, 1)));
    assert_eq!(editor.next(2), Some((1, 1)));
    assert_eq!(editor.next(3), None);
    assert_eq!(editor.previous(1), Some((0, 0)));
    assert_eq!(editor.previous(2), None);
    assert_eq!(editor.current(), Some('b'));
    let end = editor_with(&["ab"], (2, 0));
    assert_eq!(end.current(), None);
}

#[test]
fn directional_moves() {
    let editor = editor_with(&["hello", "ab", "xyz"], (3, 1));
    assert_eq!(editor.pos(), (2, 1));
    assert_eq!(editor.left(1), (1, 1));
    assert_eq!(editor.left(9), (0, 1));
    assert_eq!(editor.right(1, false), (2, 1));
    assert_eq!(editor.right(1, true), (1, 1));
    assert_eq!(editor.right(usize::MAX, false), (2, 1));
    assert_eq!(editor.up(1), (3, 0));
    assert_eq!(editor.up(5), (3, 0));
    assert_eq!(editor.down(1), (3, 2));
    assert_eq!(editor.down(usize::MAX), (3, 2));
}

#[test]
fn unbounded_moves_keep_their_sign() {
    let editor = editor_with(&["hello", "ab", "xyz"], (1, 1));
    assert_eq!(editor.left_unbounded(3), (-2, 1));
    assert_eq!(editor.left_unbounded(1), (0, 1));
    assert_eq!(editor.right_unbounded(10), (11, 1));
    assert_eq!(editor.up_unbounded(2), (1, -1));
    assert_eq!(editor.down_unbounded(5), (1, 6));
    assert_eq!(editor.right_unbounded(usize::MAX), (isize::MAX, 1));
    assert_eq!(editor.left_unbounded(usize::MAX), (isize::MIN, 1));
}

#[test]
fn signed_and_unsigned_numbers() {
    assert_eq!(to_signed(5), 5);
    assert_eq!(to_signed(usize::MAX), isize::MAX);
    assert_eq!(to_unsigned(-3), 0);
    assert_eq!(to_unsigned(7), 7);
    assert_eq!(to_signed_pos((3, 4)), (3, 4));
    assert_eq!(to_signed_pos((usize::MAX, 0)), (isize::MAX, 0));
    assert_eq!(saturating_sum(2, 3), 5);
    assert_eq!(saturating_sum(usize::MAX, 3), usize::MAX);
    assert_eq!(signed_difference(2, 5), -3);
    assert_eq!(signed_difference(5, 2), 3);
    assert_eq!(signed_difference(0, usize::MAX), isize::MIN);
    assert_eq!(signed_difference(0, isize::MAX as usize), -isize::MAX);
}

#[test]
fn next_occurrence_counts_after_the_cursor() {
    let editor = editor_with(&["abcabca"], (0, 0));
    assert_eq!(editor.next_ocur('a', 1), Some(3));
    assert_eq!(editor.next_ocur('a', 2), Some(6));
    assert_eq!(editor.next_ocur('a', 3), None);
    assert_eq!(editor.next_ocur('a', 0), None);
    assert_eq!(editor.next_ocur('b', 1), Some(1));
    assert_eq!(editor.next_ocur('z', 1), None);
    let last = editor_with(&["abcabca"], (6, 0));
    assert_eq!(last.next_ocur('a', 1), None);
}

#[test]
fn previous_occurrence_counts_before_the_cursor() {
    let editor = editor_with(&["abcabca"], (6, 0));
    assert_eq!(editor.previous_ocur('a', 1), Some(3));
    assert_eq!(editor.previous_ocur('a', 2), Some(0));
    assert_eq!(editor.previous_ocur('a', 3), None);
    assert_eq!(editor.previous_ocur('a', 0), None);
    assert_eq!(editor.previous_ocur('c', 1), Some(5));
    let first = editor_with(&["abcabca"], (0, 0));
    assert_eq!(first.previous_ocur('a', 1), None);
    let end = editor_with(&["abcabca"], (7, 0));
    assert_eq!(end.previous_ocur('a', 1), Some(6));
}
