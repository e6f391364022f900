//! Movement: the places next to a position, in the text taken as one
//! stream of characters and along the two axes.

use crate::caret::position::{bound_row, bounded_hor, bounded_ver, clip, to_signed};
use crate::state::buffers::{Buffer, Document};
use crate::state::cursor::Cursor;
use crate::state::editor::{Editor, EditorView};
use vstd::prelude::*;

verus! {

/// The number of characters on the rows above row `y`.
pub open spec fn chars_above(lines: Seq<Seq<char>>, y: int) -> int
    decreases y,
{
    if y <= 0 {
        0
    } else {
        chars_above(lines, y - 1) + lines[y - 1].len()
    }
}

/// Where the position lies in the text taken as one stream of characters:
/// the lines joined, with nothing between them.
pub open spec fn offset_of(lines: Seq<Seq<char>>, pos: (usize, usize)) -> int {
    chars_above(lines, pos.1 as int) + pos.0
}

/// Whether the position is on a character of the document.
pub open spec fn on_char(lines: Seq<Seq<char>>, pos: (usize, usize)) -> bool {
    pos.1 < lines.len() && pos.0 < lines[pos.1 as int].len()
}

/// The position of the character that lies at `offset` in the stream, if
/// the stream is that long.
pub open spec fn char_at_offset(lines: Seq<Seq<char>>, offset: int) -> Option<(usize, usize)> {
    if exists|q: (usize, usize)| on_char(lines, q) && offset_of(lines, q) == offset {
        Some(choose|q: (usize, usize)| on_char(lines, q) && offset_of(lines, q) == offset)
    } else {
        None
    }
}

/// The position `n` characters after `pos` in the stream; `None` where the
/// stream ends before.
pub open spec fn after_pos(lines: Seq<Seq<char>>, n: usize, pos: (usize, usize)) -> Option<
    (usize, usize),
> {
    char_at_offset(lines, offset_of(lines, pos) + n)
}

/// The position `n` characters before `pos` in the stream: on the same row
/// where the column allows it, else on a character of a row above; `None`
/// where the stream starts after.
pub open spec fn before_pos(lines: Seq<Seq<char>>, n: usize, pos: (usize, usize)) -> Option<
    (usize, usize),
> {
    if pos.0 >= n {
        Some(((pos.0 - n) as usize, pos.1))
    } else {
        char_at_offset(lines, offset_of(lines, pos) - n)
    }
}

/// The rows above a row hold no more characters than those above a later
/// row.
pub proof fn lemma_chars_above_monotonic(lines: Seq<Seq<char>>, a: int, b: int)
    requires
        0 <= a <= b,
    ensures
        0 <= chars_above(lines, a) <= chars_above(lines, b),
    decreases b,
{
    if a < b {
        lemma_chars_above_monotonic(lines, a, b - 1);
    } else if a > 0 {
        lemma_chars_above_monotonic(lines, a - 1, a - 1);
    }
}

/// Two positions on characters that lie at the same offset are the same.
pub proof fn lemma_offset_injective(lines: Seq<Seq<char>>, p: (usize, usize), q: (usize, usize))
    requires
        on_char(lines, p),
        on_char(lines, q),
        offset_of(lines, p) == offset_of(lines, q),
    ensures
        p == q,
{
    if p.1 < q.1 {
        lemma_chars_above_monotonic(lines, p.1 + 1, q.1 as int);
    } else if q.1 < p.1 {
        lemma_chars_above_monotonic(lines, q.1 + 1, p.1 as int);
    }
}

/// A position on a character is the one that `char_at_offset` gives for
/// its offset.
pub proof fn lemma_char_at_offset(lines: Seq<Seq<char>>, q: (usize, usize))
    requires
        on_char(lines, q),
    ensures
        char_at_offset(lines, offset_of(lines, q)) == Some(q),
{
    let offset = offset_of(lines, q);
    let r = choose|r: (usize, usize)| on_char(lines, r) && offset_of(lines, r) == offset;
    lemma_offset_injective(lines, q, r);
}

/// No character lies before the start of the stream or from its end on.
pub proof fn lemma_no_char_at_offset(lines: Seq<Seq<char>>, offset: int)
    requires
        offset < 0 || offset >= chars_above(lines, lines.len() as int),
    ensures
        char_at_offset(lines, offset) == None::<(usize, usize)>,
{
    assert forall|q: (usize, usize)| on_char(lines, q) implies offset_of(lines, q) != offset by {
        lemma_chars_above_monotonic(lines, q.1 as int, q.1 as int);
        lemma_chars_above_monotonic(lines, q.1 + 1, lines.len() as int);
    }
}

/// Going `n` characters on from a character and then `n` characters back
/// leads to where one started.
pub proof fn lemma_motion_symmetry(lines: Seq<Seq<char>>, n: usize, p: (usize, usize))
    requires
        on_char(lines, p),
        after_pos(lines, n, p).is_some(),
    ensures
        before_pos(lines, n, after_pos(lines, n, p).unwrap()) == Some(p),
{
    let q = after_pos(lines, n, p).unwrap();
    assert(on_char(lines, q) && offset_of(lines, q) == offset_of(lines, p) + n);
    if q.0 >= n {
        let r = ((q.0 - n) as usize, q.1);
        lemma_offset_injective(lines, p, r);
    } else {
        lemma_char_at_offset(lines, p);
    }
}

/// How often `c` occurs in the columns `from..to` of the line.
pub open spec fn count_char(line: Seq<char>, c: char, from: int, to: int) -> nat
    decreases to - from,
{
    if from >= to {
        0
    } else {
        count_char(line, c, from, to - 1) + if line[to - 1] == c {
            1nat
        } else {
            0nat
        }
    }
}

/// Whether column `p` holds the `n`-th occurrence of `c` after column `x`.
/// The character at `x` itself is not counted.
pub open spec fn is_nth_after(line: Seq<char>, c: char, n: usize, x: usize, p: usize) -> bool {
    &&& x < p < line.len()
    &&& line[p as int] == c
    &&& count_char(line, c, x + 1, p + 1) == n
}

/// Whether column `p` holds the `n`-th occurrence of `c` before column
/// `x`, counted backwards from `x`. The character at `x` itself is not
/// counted.
pub open spec fn is_nth_before(line: Seq<char>, c: char, n: usize, x: usize, p: usize) -> bool {
    &&& p < x <= line.len()
    &&& line[p as int] == c
    &&& count_char(line, c, p as int, x as int) == n
}

/// The column of the `n`-th occurrence of `c` after column `x`, if there
/// is one.
pub open spec fn nth_after(line: Seq<char>, c: char, n: usize, x: usize) -> Option<usize> {
    if exists|p: usize| is_nth_after(line, c, n, x, p) {
        Some(choose|p: usize| is_nth_after(line, c, n, x, p))
    } else {
        None
    }
}

/// The column of the `n`-th occurrence of `c` before column `x`, if there
/// is one.
pub open spec fn nth_before(line: Seq<char>, c: char, n: usize, x: usize) -> Option<usize> {
    if exists|p: usize| is_nth_before(line, c, n, x, p) {
        Some(choose|p: usize| is_nth_before(line, c, n, x, p))
    } else {
        None
    }
}

/// A longer range holds at least as many occurrences.
pub proof fn lemma_count_char_monotonic(line: Seq<char>, c: char, from: int, a: int, b: int)
    requires
        from <= a <= b,
    ensures
        count_char(line, c, from, a) <= count_char(line, c, from, b),
    decreases b - a,
{
    if a < b {
        lemma_count_char_monotonic(line, c, from, a, b - 1);
    }
}

/// Counting from one column further on leaves out what that column held.
pub proof fn lemma_count_char_front(line: Seq<char>, c: char, from: int, to: int)
    requires
        from < to,
    ensures
        count_char(line, c, from, to) == count_char(line, c, from + 1, to) + if line[from] == c {
            1nat
        } else {
            0nat
        },
    decreases to - from,
{
    if from + 1 < to {
        lemma_count_char_front(line, c, from, to - 1);
    } else {
        assert(count_char(line, c, from, to - 1) == 0);
        assert(count_char(line, c, from + 1, to) == 0);
    }
}

/// A range that starts earlier holds at least as many occurrences.
pub proof fn lemma_count_char_monotonic_front(line: Seq<char>, c: char, a: int, b: int, to: int)
    requires
        a <= b <= to,
    ensures
        count_char(line, c, b, to) <= count_char(line, c, a, to),
    decreases b - a,
{
    if a < b {
        lemma_count_char_front(line, c, a, to);
        lemma_count_char_monotonic_front(line, c, a + 1, b, to);
    }
}

/// The `n`-th occurrence after a column is at one place only.
pub proof fn lemma_nth_after_unique(line: Seq<char>, c: char, n: usize, x: usize, p: usize)
    requires
        is_nth_after(line, c, n, x, p),
    ensures
        nth_after(line, c, n, x) == Some(p),
{
    let q = choose|q: usize| is_nth_after(line, c, n, x, q);
    if p < q {
        lemma_count_char_monotonic(line, c, x + 1, p + 1, q as int);
    } else if q < p {
        lemma_count_char_monotonic(line, c, x + 1, q + 1, p as int);
    }
}

/// The `n`-th occurrence before a column is at one place only.
pub proof fn lemma_nth_before_unique(line: Seq<char>, c: char, n: usize, x: usize, p: usize)
    requires
        is_nth_before(line, c, n, x, p),
    ensures
        nth_before(line, c, n, x) == Some(p),
{
    let q = choose|q: usize| is_nth_before(line, c, n, x, q);
    if p < q {
        lemma_count_char_front(line, c, p as int, x as int);
        lemma_count_char_monotonic_front(line, c, p + 1, q as int, x as int);
    } else if q < p {
        lemma_count_char_front(line, c, q as int, x as int);
        lemma_count_char_monotonic_front(line, c, q + 1, p as int, x as int);
    }
}

/// The sum of two counts, or the largest `usize` where it does not fit.
pub open spec fn add_clamped(a: usize, b: usize) -> usize {
    if a + b > usize::MAX {
        usize::MAX
    } else {
        (a + b) as usize
    }
}

/// The sum of two counts, or the largest `usize` where it does not fit.
pub fn saturating_sum(a: usize, b: usize) -> (sum: usize)
    ensures
        sum == add_clamped(a, b),
{
    if b > usize::MAX - a {
        usize::MAX
    } else {
        a + b
    }
}

/// The difference `a - b` as an `isize`, or the nearest `isize` where it
/// does not fit.
pub fn signed_difference(a: usize, b: usize) -> (d: isize)
    ensures
        d == clip(a - b),
{
    if a >= b {
        to_signed(a - b)
    } else {
        let back = b - a;
        if back > isize::MAX as usize {
            isize::MIN
        } else {
            -(back as isize)
        }
    }
}

impl Document {
    /// The document with its cursor at `pos`, as it is, and the focus of
    /// the storage on that row (bounded). The mode stays.
    pub open spec fn moved_to(self, pos: (usize, usize)) -> Document {
        Document {
            focus: bound_row(self.lines, pos.1) as nat,
            ..self.with_cursor(Cursor { x: pos.0, y: pos.1, mode: self.cursor().mode })
        }
    }

    /// The character under the bounded cursor, if the cursor is on one.
    pub open spec fn current(self) -> Option<char> {
        if self.pos().0 < self.line().len() {
            Some(self.line()[self.pos().0 as int])
        } else {
            None
        }
    }

    /// The place `n` columns right of the cursor, bounded to the line.
    pub open spec fn right(self, n: usize, tight: bool) -> (usize, usize) {
        bounded_hor(self.lines, (add_clamped(self.pos().0, n), self.pos().1), tight)
    }

    /// The place `n` columns right of the cursor, not bounded.
    pub open spec fn right_unbounded(self, n: usize) -> (isize, isize) {
        (clip(self.pos().0 + n), clip(self.pos().1 as int))
    }

    /// The place `n` columns left of the cursor, no further than the start
    /// of the line.
    pub open spec fn left(self, n: usize) -> (usize, usize) {
        if n <= self.pos().0 {
            ((self.pos().0 - n) as usize, self.pos().1)
        } else {
            (0, self.pos().1)
        }
    }

    /// The place `n` columns left of the cursor, not bounded.
    pub open spec fn left_unbounded(self, n: usize) -> (isize, isize) {
        (clip(self.pos().0 - n), clip(self.pos().1 as int))
    }

    /// The place `n` rows above the cursor, no further than the first
    /// row. The column is the one the cursor asks for.
    pub open spec fn up(self, n: usize) -> (usize, usize) {
        if n <= self.pos().1 {
            (self.cursor().x, (self.pos().1 - n) as usize)
        } else {
            (self.cursor().x, 0)
        }
    }

    /// The place `n` rows above the cursor, not bounded.
    pub open spec fn up_unbounded(self, n: usize) -> (isize, isize) {
        (clip(self.cursor().x as int), clip(self.pos().1 - n))
    }

    /// The place `n` rows below the cursor, no further than the last row.
    /// The column is the one the cursor asks for.
    pub open spec fn down(self, n: usize) -> (usize, usize) {
        bounded_ver(self.lines, (self.cursor().x, add_clamped(self.pos().1, n)))
    }

    /// The place `n` rows below the cursor, not bounded.
    pub open spec fn down_unbounded(self, n: usize) -> (isize, isize) {
        (clip(self.cursor().x as int), clip(self.pos().1 + n))
    }

    /// The column of the `n`-th occurrence of `c` after the cursor on its
    /// line.
    pub open spec fn next_ocur(self, c: char, n: usize) -> Option<usize> {
        nth_after(self.line(), c, n, self.pos().0)
    }

    /// The column of the `n`-th occurrence of `c` before the cursor on its
    /// line.
    pub open spec fn previous_ocur(self, c: char, n: usize) -> Option<usize> {
        nth_before(self.line(), c, n, self.pos().0)
    }
}

impl EditorView {
    /// The editor with the cursor of its current document at `pos`.
    pub open spec fn moved_to(self, pos: (usize, usize)) -> EditorView {
        self.with_doc(self.doc().moved_to(pos))
    }
}

impl Buffer {
    /// Puts the cursor at `pos`, as it is: the position is bounded only
    /// when it is read. The storage is told about the new row.
    pub fn goto(&mut self, pos: (usize, usize))
        requires
            old(self).wf(),
        ensures
            final(self).wf(),
            final(self)@ == old(self)@.moved_to(pos),
    {
        let (x, y) = pos;
        let row = self.bound_ver(pos).1;
        let index = self.current_cursor as usize;
        let mode = self.cursors[index].mode;
        self.cursors[index] = Cursor { x, y, mode };
        self.raw_buffer.focus_hint_y(row);
        proof {
            self.raw_buffer.lemma_wf();
        }
    }

    /// The character under the cursor, if the cursor is on one.
    pub fn current(&self) -> (c: Option<char>)
        requires
            self.wf(),
        ensures
            c == self@.current(),
    {
        let (x, y) = self.pos();
        let line = self.raw_buffer.get_line(y).unwrap();
        if x < line.len() {
            Some(line.get(x))
        } else {
            None
        }
    }

    /// The position `n` characters before the cursor in the stream.
    pub fn previous(&self, n: usize) -> (pos: Option<(usize, usize)>)
        requires
            self.wf(),
        ensures
            pos == before_pos(self@.lines, n, self@.pos()),
    {
        self.before(n, self.pos())
    }

    /// The position `n` characters after the cursor in the stream.
    pub fn next(&self, n: usize) -> (pos: Option<(usize, usize)>)
        requires
            self.wf(),
        ensures
            pos == after_pos(self@.lines, n, self@.pos()),
    {
        self.after(n, self.pos())
    }

    /// The position `n` characters after `pos` in the text taken as one
    /// stream: on the same row where the line is long enough, else on a
    /// character of a row below. `None` where the text ends before.
    pub fn after(&self, n: usize, pos: (usize, usize)) -> (after: Option<(usize, usize)>)
        requires
            self.wf(),
            pos.1 < self@.lines.len(),
        ensures
            after == after_pos(self@.lines, n, pos),
            after.is_some() ==> on_char(self@.lines, after.unwrap()),
    {
        let (x, y) = pos;
        let buffer = &self.raw_buffer;
        let ghost lines = buffer@;
        let len = buffer.get_line(y).unwrap().len();
        if x < len && n < len - x {
            proof {
                lemma_char_at_offset(lines, ((x + n) as usize, y));
            }
            return Some((x + n, y));
        }
        let count = buffer.len();
        let mut mv: u128 = n as u128 + x as u128 - len as u128;
        let mut ry: usize = y + 1;
        while ry < count
            invariant
                buffer.wf(),
                lines == buffer@,
                lines == self@.lines,
                count == lines.len(),
                y < ry <= count,
                mv == offset_of(lines, pos) + n - chars_above(lines, ry as int),
            decreases count - ry,
        {
            let l = buffer.get_line(ry).unwrap().len();
            if mv < l as u128 {
                proof {
                    lemma_char_at_offset(lines, (mv as usize, ry));
                }
                return Some((mv as usize, ry));
            }
            mv -= l as u128;
            ry += 1;
        }
        proof {
            lemma_no_char_at_offset(lines, offset_of(lines, pos) + n);
        }
        None
    }

    /// The position `n` characters before `pos` in the text taken as one
    /// stream: on the same row where the column allows it, else on a
    /// character of a row above. `None` where the text starts after.
    pub fn before(&self, n: usize, pos: (usize, usize)) -> (before: Option<(usize, usize)>)
        requires
            self.wf(),
            pos.1 < self@.lines.len(),
        ensures
            before == before_pos(self@.lines, n, pos),
    {
        let (x, y) = pos;
        if x >= n {
            return Some((x - n, y));
        }
        let buffer = &self.raw_buffer;
        let ghost lines = buffer@;
        let mut mv: usize = n - x;
        let mut ry: usize = y;
        while ry > 0
            invariant
                buffer.wf(),
                lines == buffer@,
                lines == self@.lines,
                pos.0 < n,
                ry <= y < lines.len(),
                mv >= 1,
                chars_above(lines, ry as int) - mv == offset_of(lines, pos) - n,
            decreases ry,
        {
            ry -= 1;
            let l = buffer.get_line(ry).unwrap().len();
            if mv <= l {
                proof {
                    lemma_char_at_offset(lines, ((l - mv) as usize, ry));
                }
                return Some((l - mv, ry));
            }
            mv -= l;
        }
        proof {
            lemma_no_char_at_offset(lines, offset_of(lines, pos) - n);
        }
        None
    }

    /// The place `n` columns right of the cursor, bounded to the line.
    pub fn right(&self, n: usize, tight: bool) -> (pos: (usize, usize))
        requires
            self.wf(),
        ensures
            pos == self@.right(n, tight),
    {
        let (x, y) = self.pos();
        self.bound_hor((saturating_sum(x, n), y), tight)
    }

    /// The place `n` columns right of the cursor, not bounded.
    pub fn right_unbounded(&self, n: usize) -> (pos: (isize, isize))
        requires
            self.wf(),
        ensures
            pos == self@.right_unbounded(n),
    {
        let (x, y) = self.pos();
        (to_signed(saturating_sum(x, n)), to_signed(y))
    }

    /// The place `n` columns left of the cursor, no further than the start
    /// of the line.
    pub fn left(&self, n: usize) -> (pos: (usize, usize))
        requires
            self.wf(),
        ensures
            pos == self@.left(n),
    {
        let (x, y) = self.pos();
        if n <= x {
            (x - n, y)
        } else {
            (0, y)
        }
    }

    /// The place `n` columns left of the cursor, not bounded.
    pub fn left_unbounded(&self, n: usize) -> (pos: (isize, isize))
        requires
            self.wf(),
        ensures
            pos == self@.left_unbounded(n),
    {
        let (x, y) = self.pos();
        (signed_difference(x, n), to_signed(y))
    }

    /// The place `n` rows above the cursor, no further than the first row.
    pub fn up(&self, n: usize) -> (pos: (usize, usize))
        requires
            self.wf(),
        ensures
            pos == self@.up(n),
    {
        let x = self.cursor().x;
        let y = self.y();
        if n <= y {
            (x, y - n)
        } else {
            (x, 0)
        }
    }

    /// The place `n` rows above the cursor, not bounded.
    pub fn up_unbounded(&self, n: usize) -> (pos: (isize, isize))
        requires
            self.wf(),
        ensures
            pos == self@.up_unbounded(n),
    {
        let x = self.cursor().x;
        let y = self.y();
        (to_signed(x), signed_difference(y, n))
    }

    /// The place `n` rows below the cursor, no further than the last row.
    pub fn down(&self, n: usize) -> (pos: (usize, usize))
        requires
            self.wf(),
        ensures
            pos == self@.down(n),
    {
        let x = self.cursor().x;
        let y = self.y();
        self.bound_ver((x, saturating_sum(y, n)))
    }

    /// The place `n` rows below the cursor, not bounded.
    pub fn down_unbounded(&self, n: usize) -> (pos: (isize, isize))
        requires
            self.wf(),
        ensures
            pos == self@.down_unbounded(n),
    {
        let x = self.cursor().x;
        let y = self.y();
        (to_signed(x), to_signed(saturating_sum(y, n)))
    }

    /// The column of the `n`-th occurrence of `c` after the cursor on its
    /// line. The character under the cursor is not counted, and there is
    /// no zeroth occurrence.
    pub fn next_ocur(&self, c: char, n: usize) -> (column: Option<usize>)
        requires
            self.wf(),
        ensures
            column == self@.next_ocur(c, n),
    {
        let (x, y) = self.pos();
        let line = self.raw_buffer.get_line(y).unwrap();
        let ghost text = line@;
        let len = line.len();
        if n == 0 {
            proof {
                assert forall|p: usize| !is_nth_after(text, c, n, x, p) by {
                    if x < p < len && text[p as int] == c {
                        lemma_count_char_monotonic(text, c, x + 1, p as int, p + 1);
                    }
                }
            }
            return None;
        }
        let mut seen: usize = 0;
        let mut i: usize = x;
        while i < len && i + 1 < len
            invariant
                text == line@,
                self@.next_ocur(c, n) == nth_after(text, c, n, x),
                len == text.len(),
                x <= i,
                i < len || i == x,
                i < len ==> seen == count_char(text, c, x + 1, i + 1),
                seen <= i - x,
                seen < n,
            decreases len - i,
        {
            i += 1;
            if line.get(i) == c {
                seen += 1;
                if seen == n {
                    proof {
                        lemma_nth_after_unique(text, c, n, x, i);
                    }
                    return Some(i);
                }
            }
        }
        proof {
            assert forall|p: usize| !is_nth_after(text, c, n, x, p) by {
                if x < p < len {
                    lemma_count_char_monotonic(text, c, x + 1, p + 1, len as int);
                }
            }
        }
        None
    }

    /// The column of the `n`-th occurrence of `c` before the cursor on its
    /// line, counted backwards. The character under the cursor is not
    /// counted, and there is no zeroth occurrence.
    pub fn previous_ocur(&self, c: char, n: usize) -> (column: Option<usize>)
        requires
            self.wf(),
        ensures
            column == self@.previous_ocur(c, n),
    {
        let (x, y) = self.pos();
        let line = self.raw_buffer.get_line(y).unwrap();
        let ghost text = line@;
        if n == 0 {
            proof {
                assert forall|p: usize| !is_nth_before(text, c, n, x, p) by {
                    if p < x <= text.len() && text[p as int] == c {
                        lemma_count_char_front(text, c, p as int, x as int);
                    }
                }
            }
            return None;
        }
        let mut seen: usize = 0;
        let mut i: usize = x;
        while i > 0
            invariant
                text == line@,
                self@.previous_ocur(c, n) == nth_before(text, c, n, x),
                i <= x <= text.len(),
                seen == count_char(text, c, i as int, x as int),
                seen <= x - i,
                seen < n,
            decreases i,
        {
            i -= 1;
            proof {
                lemma_count_char_front(text, c, i as int, x as int);
            }
            if line.get(i) == c {
                seen += 1;
                if seen == n {
                    proof {
                        lemma_nth_before_unique(text, c, n, x, i);
                    }
                    return Some(i);
                }
            }
        }
        proof {
            assert forall|p: usize| !is_nth_before(text, c, n, x, p) by {
                if p < x {
                    lemma_count_char_monotonic_front(text, c, 0, p as int, x as int);
                }
            }
        }
        None
    }
}


impl Editor {
    /// Puts the cursor at `pos`, as it is: the position is bounded only
    /// when it is read. The storage is told about the new row.
    pub fn goto(&mut self, pos: (usize, usize))
        requires
            old(self).wf(),
        ensures
            final(self).wf(),
            final(self)@ == old(self)@.moved_to(pos),
    {
        self.buffers.current_buffer_info_mut().goto(pos);
    }

    /// The character under the cursor, if the cursor is on one.
    pub fn current(&self) -> (c: Option<char>)
        requires
            self.wf(),
        ensures
            c == self@.doc().current(),
    {
        self.buffers.current_buffer_info().current()
    }

    /// The position `n` characters before the cursor in the stream.
    pub fn previous(&self, n: usize) -> (pos: Option<(usize, usize)>)
        requires
            self.wf(),
        ensures
            pos == before_pos(self@.lines(), n, self@.pos()),
    {
        self.buffers.current_buffer_info().previous(n)
    }

    /// The position `n` characters after the cursor in the stream.
    pub fn next(&self, n: usize) -> (pos: Option<(usize, usize)>)
        requires
            self.wf(),
        ensures
            pos == after_pos(self@.lines(), n, self@.pos()),
    {
        self.buffers.current_buffer_info().next(n)
    }

    /// The position `n` characters after `pos` in the text taken as one
    /// stream; `None` where the text ends before.
    pub fn after(&self, n: usize, pos: (usize, usize)) -> (after: Option<(usize, usize)>)
        requires
            self.wf(),
            pos.1 < self@.lines().len(),
        ensures
            after == after_pos(self@.lines(), n, pos),
            after.is_some() ==> on_char(self@.lines(), after.unwrap()),
    {
        self.buffers.current_buffer_info().after(n, pos)
    }

    /// The position `n` characters before `pos` in the text taken as one
    /// stream; `None` where the text starts after.
    pub fn before(&self, n: usize, pos: (usize, usize)) -> (before: Option<(usize, usize)>)
        requires
            self.wf(),
            pos.1 < self@.lines().len(),
        ensures
            before == before_pos(self@.lines(), n, pos),
    {
        self.buffers.current_buffer_info().before(n, pos)
    }

    /// The place `n` columns right of the cursor, bounded to the line.
    pub fn right(&self, n: usize, tight: bool) -> (pos: (usize, usize))
        requires
            self.wf(),
        ensures
            pos == self@.doc().right(n, tight),
    {
        self.buffers.current_buffer_info().right(n, tight)
    }

    /// The place `n` columns right of the cursor, not bounded.
    pub fn right_unbounded(&self, n: usize) -> (pos: (isize, isize))
        requires
            self.wf(),
        ensures
            pos == self@.doc().right_unbounded(n),
    {
        self.buffers.current_buffer_info().right_unbounded(n)
    }

    /// The place `n` columns left of the cursor, no further than the start
    /// of the line.
    pub fn left(&self, n: usize) -> (pos: (usize, usize))
        requires
            self.wf(),
        ensures
            pos == self@.doc().left(n),
    {
        self.buffers.current_buffer_info().left(n)
    }

    /// The place `n` columns left of the cursor, not bounded.
    pub fn left_unbounded(&self, n: usize) -> (pos: (isize, isize))
        requires
            self.wf(),
        ensures
            pos == self@.doc().left_unbounded(n),
    {
        self.buffers.current_buffer_info().left_unbounded(n)
    }

    /// The place `n` rows above the cursor, no further than the first row.
    pub fn up(&self, n: usize) -> (pos: (usize, usize))
        requires
            self.wf(),
        ensures
            pos == self@.doc().up(n),
    {
        self.buffers.current_buffer_info().up(n)
    }

    /// The place `n` rows above the cursor, not bounded.
    pub fn up_unbounded(&self, n: usize) -> (pos: (isize, isize))
        requires
            self.wf(),
        ensures
            pos == self@.doc().up_unbounded(n),
    {
        self.buffers.current_buffer_info().up_unbounded(n)
    }

    /// The place `n` rows below the cursor, no further than the last row.
    pub fn down(&self, n: usize) -> (pos: (usize, usize))
        requires
            self.wf(),
        ensures
            pos == self@.doc().down(n),
    {
        self.buffers.current_buffer_info().down(n)
    }

    /// The place `n` rows below the cursor, not bounded.
    pub fn down_unbounded(&self, n: usize) -> (pos: (isize, isize))
        requires
            self.wf(),
        ensures
            pos == self@.doc().down_unbounded(n),
    {
        self.buffers.current_buffer_info().down_unbounded(n)
    }

    /// The column of the `n`-th occurrence of `c` after the cursor on its
    /// line. The character under the cursor is not counted, and there is
    /// no zeroth occurrence.
    pub fn next_ocur(&self, c: char, n: usize) -> (column: Option<usize>)
        requires
            self.wf(),
        ensures
            column == self@.doc().next_ocur(c, n),
    {
        self.buffers.current_buffer_info().next_ocur(c, n)
    }

    /// The column of the `n`-th occurrence of `c` before the cursor on its
    /// line, counted backwards. The character under the cursor is not
    /// counted, and there is no zeroth occurrence.
    pub fn previous_ocur(&self, c: char, n: usize) -> (column: Option<usize>)
        requires
            self.wf(),
        ensures
            column == self@.doc().previous_ocur(c, n),
    {
        self.buffers.current_buffer_info().previous_ocur(c, n)
    }
}

} // verus!
