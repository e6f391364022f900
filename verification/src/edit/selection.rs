//! Removing the text between the cursor and the place a motion names.

use crate::caret::position::{bounded, clip, to_signed, to_unsigned, unsign};
use crate::edit::buffer::lines_or_empty;
use crate::io::redraw::{redraw_line, RedrawTask};
use crate::state::buffers::{Buffer, Document};
use crate::state::editor::{Editor, EditorView};
use core::ops::Range;
use vstd::prelude::*;

verus! {

/// The lines without the rows `a` to `b`, both included. Where no row
/// would be left, one empty line is.
pub open spec fn rows_removed(lines: Seq<Seq<char>>, a: int, b: int) -> Seq<Seq<char>> {
    lines_or_empty(lines.subrange(0, a) + lines.subrange(b + 1, lines.len() as int))
}

/// The line without the columns `a` up to, not including, `b`.
pub open spec fn columns_removed(line: Seq<char>, a: int, b: int) -> Seq<char> {
    line.subrange(0, a) + line.subrange(b, line.len() as int)
}

impl Document {
    /// Whether the place `target` that a motion names is on the row of
    /// the cursor.
    pub open spec fn on_cursor_row(self, target: (isize, isize)) -> bool {
        target.1 == clip(self.pos().1 as int)
    }

    /// The place in the document that `target` stands for: what is
    /// negative counts as zero, the row is bounded to the document and the
    /// column to the line, tightly or not.
    pub open spec fn resolved(self, target: (isize, isize), tight: bool) -> (usize, usize) {
        bounded(self.lines, (unsign(target.0), unsign(target.1)), tight)
    }

    /// The first and the last row that go when the motion names a place
    /// on another row: the row of the cursor and the row of that place,
    /// the smaller one first.
    pub open spec fn rows_between(self, target: (isize, isize)) -> (usize, usize) {
        let y = self.pos().1;
        let t = self.resolved(target, true).1;
        if y < t {
            (y, t)
        } else {
            (t, y)
        }
    }

    /// The first column that goes, and the first that stays, when the
    /// motion names a place on the row of the cursor: the column of the
    /// cursor and the column of that place (zero where it is negative, and
    /// bounded to the line), the smaller one first.
    pub open spec fn columns_between(self, target: (isize, isize)) -> (usize, usize) {
        let x = self.pos().0;
        let t = bounded(self.lines, (unsign(target.0), self.pos().1), false).0;
        if x > t {
            (t, x)
        } else {
            (x, t)
        }
    }

    /// The document without the rows `a` to `b`.
    pub open spec fn without_rows(self, a: usize, b: usize) -> Document {
        Document { lines: rows_removed(self.lines, a as int, b as int), ..self }.hinted()
    }

    /// The document without what lies between the cursor and `target`.
    /// Where `target` is on the row of the cursor, the characters between
    /// the two columns go. Where it is on another row, every row from the
    /// one to the other goes, both included.
    pub open spec fn range_removed(self, target: (isize, isize)) -> Document {
        if self.on_cursor_row(target) {
            let row = self.pos().1 as int;
            let (a, b) = self.columns_between(target);
            Document {
                lines: self.lines.update(row, columns_removed(self.lines[row], a as int, b as int)),
                ..self
            }.hinted()
        } else {
            let (a, b) = self.rows_between(target);
            self.without_rows(a, b)
        }
    }
}

impl EditorView {
    /// What the renderer is asked for after the removal up to `target`:
    /// the row, where characters of it went; the rows from the first
    /// removed one on, where rows went.
    pub open spec fn redraw_after_removal(self, target: (isize, isize)) -> RedrawTask {
        if self.doc().on_cursor_row(target) {
            redraw_line(self.pos().1)
        } else {
            RedrawTask::LinesAfter(self.doc().rows_between(target).0)
        }
    }

    /// The editor after the removal of what lies between the cursor and
    /// `target`.
    pub open spec fn range_removed(self, target: (isize, isize)) -> EditorView {
        self.with_doc(self.doc().range_removed(target)).with_redraw(
            self.redraw_after_removal(target),
        )
    }

    /// The editor after the removal of the row of the cursor.
    pub open spec fn row_removed(self) -> EditorView {
        self.with_doc(self.doc().without_rows(self.pos().1, self.pos().1)).with_redraw(
            RedrawTask::LinesAfter(self.pos().1),
        )
    }
}

impl Buffer {
    /// Removes the rows `a` to `b`, both included. A document never loses
    /// its last line: where every row is to go, one empty line is left.
    pub fn remove_rows(&mut self, a: usize, b: usize)
        requires
            old(self).wf(),
            a <= b < old(self)@.lines.len(),
        ensures
            final(self).wf(),
            final(self)@ == old(self)@.without_rows(a, b),
    {
        let ghost lines = self.raw_buffer@;
        let n = b - a + 1;
        let mut i: usize = 0;
        while i < n
            invariant
                i <= n,
                n == b - a + 1,
                a <= b < lines.len(),
                self.raw_buffer.wf(),
                self.cursors == old(self).cursors,
                self.current_cursor == old(self).current_cursor,
                self.scroll_x == old(self).scroll_x,
                self.scroll_y == old(self).scroll_y,
                self.title == old(self).title,
                self.is_transient == old(self).is_transient,
                i < lines.len() ==> self.raw_buffer@ == lines.subrange(0, a as int) + lines.subrange(
                    a + i,
                    lines.len() as int,
                ),
                i >= lines.len() ==> self.raw_buffer@ == seq![Seq::<char>::empty()],
            decreases n - i,
        {
            if self.raw_buffer.len() > 1 {
                self.raw_buffer.remove_line(a);
                assert(self.raw_buffer@ =~= lines.subrange(0, a as int) + lines.subrange(
                    a + i + 1,
                    lines.len() as int,
                ));
            } else {
                self.raw_buffer.get_line_mut(0).unwrap().clear();
                assert(self.raw_buffer@ =~= seq![Seq::<char>::empty()]);
            }
            i += 1;
        }
        proof {
            self.raw_buffer.lemma_wf();
            assert(self.raw_buffer@ =~= rows_removed(lines, a as int, b as int));
        }
        self.hint();
    }

    /// The first and the last row that go when a motion names `target`,
    /// a place on another row than the cursor's.
    pub fn rows_between(&self, target: (isize, isize)) -> (rows: (usize, usize))
        requires
            self.wf(),
        ensures
            rows == self@.rows_between(target),
            rows.0 <= rows.1 < self@.lines.len(),
    {
        let y = self.y();
        let (_, t) = self.bound((to_unsigned(target.0), to_unsigned(target.1)), true);
        if y < t {
            (y, t)
        } else {
            (t, y)
        }
    }

    /// Whether the place `target` that a motion names is on the row of
    /// the cursor.
    pub fn on_cursor_row(&self, target: (isize, isize)) -> (same: bool)
        requires
            self.wf(),
        ensures
            same == self@.on_cursor_row(target),
    {
        target.1 == to_signed(self.y())
    }

    /// Removes what lies between the cursor and `target`, the place a
    /// motion names. Where `target` is on the row of the cursor, the
    /// characters between the two columns go. Where it is on another row,
    /// every row from the one to the other goes, both included.
    pub fn remove_rb(&mut self, target: (isize, isize))
        requires
            old(self).wf(),
        ensures
            final(self).wf(),
            final(self)@ == old(self)@.range_removed(target),
    {
        if self.on_cursor_row(target) {
            let (cx, y) = self.pos();
            let (x, _) = self.bound((to_unsigned(target.0), y), false);
            let (a, b) = if cx > x {
                (x, cx)
            } else {
                (cx, x)
            };
            self.raw_buffer.get_line_mut(y).unwrap().drain(a, b);
            proof {
                self.raw_buffer.lemma_wf();
            }
            self.hint();
        } else {
            let (a, b) = self.rows_between(target);
            self.remove_rows(a, b);
        }
    }
}

impl Editor {
    /// Removes what lies between the cursor and `target`, the place a
    /// motion names. Where `target` is on the row of the cursor, the
    /// characters between the two columns go. Where it is on another row,
    /// every row from the one to the other goes, both included; a document
    /// that would lose its last line keeps one empty line.
    pub fn remove_rb(&mut self, target: (isize, isize))
        requires
            old(self).wf(),
        ensures
            final(self).wf(),
            final(self)@ == old(self)@.range_removed(target),
    {
        let buffer = self.buffers.current_buffer_info();
        if buffer.on_cursor_row(target) {
            let y = buffer.y();
            self.redraw_task = RedrawTask::Lines(Range { start: y, end: y + 1 });
        } else {
            let (a, _) = buffer.rows_between(target);
            self.redraw_task = RedrawTask::LinesAfter(a);
        }
        self.buffers.current_buffer_info_mut().remove_rb(target);
    }

    /// Removes the row of the cursor; a document that would lose its last
    /// line keeps one empty line.
    pub fn remove_row(&mut self)
        requires
            old(self).wf(),
        ensures
            final(self).wf(),
            final(self)@ == old(self)@.row_removed(),
    {
        let y = self.y();
        self.redraw_task = RedrawTask::LinesAfter(y);
        self.buffers.current_buffer_info_mut().remove_rows(y, y);
    }
}

} // verus!
