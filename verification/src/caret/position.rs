//! Positions and how they are bounded to the document.

use crate::state::buffers::{Buffer, Document};
use crate::state::cursor::Cursor;
use crate::state::editor::{Editor, EditorView};
use vstd::prelude::*;

verus! {

/// The row `y` bounded to the rows of the document.
pub open spec fn bound_row(lines: Seq<Seq<char>>, y: usize) -> usize {
    if y >= lines.len() {
        (lines.len() - 1) as usize
    } else {
        y
    }
}

/// The column `x` bounded to a line of `len` characters. Tight bounding
/// keeps the column on a character (or at 0 where the line is empty); the
/// other kind also allows the place just after the last character.
pub open spec fn bound_col(len: nat, x: usize, tight: bool) -> usize {
    if tight {
        if x >= len {
            if len == 0 {
                0
            } else {
                (len - 1) as usize
            }
        } else {
            x
        }
    } else {
        if x > len {
            len as usize
        } else {
            x
        }
    }
}

/// The position `pos` bounded to the document: first the row, then the
/// column on the line of that row.
pub open spec fn bounded(lines: Seq<Seq<char>>, pos: (usize, usize), tight: bool) -> (
    usize,
    usize,
) {
    let y = bound_row(lines, pos.1);
    (bound_col(lines[y as int].len(), pos.0, tight), y)
}

/// The position with its column bounded to the line of its (bounded) row;
/// the row itself is handed back as it came.
pub open spec fn bounded_hor(lines: Seq<Seq<char>>, pos: (usize, usize), tight: bool) -> (
    usize,
    usize,
) {
    (bounded(lines, pos, tight).0, pos.1)
}

/// The position with its row bounded to the document.
pub open spec fn bounded_ver(lines: Seq<Seq<char>>, pos: (usize, usize)) -> (usize, usize) {
    (pos.0, bound_row(lines, pos.1))
}

/// The number `i` as an `isize`: itself where it fits, else the nearest
/// `isize`.
pub open spec fn clip(i: int) -> isize {
    if i > isize::MAX {
        isize::MAX
    } else if i < isize::MIN {
        isize::MIN
    } else {
        i as isize
    }
}

/// The number `i` as a `usize`, with zero for a negative number.
pub open spec fn unsign(i: isize) -> usize {
    if i < 0 {
        0
    } else {
        i as usize
    }
}

/// The position as a pair of signed numbers.
pub open spec fn signed_pos(pos: (usize, usize)) -> (isize, isize) {
    (clip(pos.0 as int), clip(pos.1 as int))
}

/// A bounded position lies in the document: its row exists, its column is
/// at most the length of the line, and with tight bounding it is on a
/// character unless the line is empty.
pub proof fn lemma_bounded(lines: Seq<Seq<char>>, pos: (usize, usize), tight: bool)
    requires
        1 <= lines.len() <= usize::MAX,
    ensures
        bounded(lines, pos, tight).1 < lines.len(),
        bounded(lines, pos, tight).0 <= lines[bounded(lines, pos, tight).1 as int].len(),
        tight && lines[bounded(lines, pos, tight).1 as int].len() > 0 ==> bounded(
            lines,
            pos,
            tight,
        ).0 < lines[bounded(lines, pos, tight).1 as int].len(),
        bounded(lines, pos, false).1 == bounded(lines, pos, true).1,
{
}

impl Document {
    /// The position of the current cursor, bounded to the document (not
    /// tightly).
    pub open spec fn pos(self) -> (usize, usize) {
        bounded(self.lines, (self.cursor().x, self.cursor().y), false)
    }

    /// The line that the bounded cursor is on.
    pub open spec fn line(self) -> Seq<char> {
        self.lines[self.pos().1 as int]
    }

    /// The document after its storage was told where the cursor is: the
    /// focus is on the row of the cursor, bounded to the document.
    pub open spec fn hinted(self) -> Document {
        Document { focus: bound_row(self.lines, self.cursor().y) as nat, ..self }
    }
}

impl EditorView {
    /// The position of the current cursor, bounded to the document (not
    /// tightly).
    pub open spec fn pos(self) -> (usize, usize) {
        self.doc().pos()
    }

    /// The editor after the storage of the current document was told
    /// where the cursor is.
    pub open spec fn hinted(self) -> EditorView {
        self.with_doc(self.doc().hinted())
    }
}

/// The number `x` as an `isize`, or the largest `isize` where it does not
/// fit.
pub fn to_signed(x: usize) -> (i: isize)
    ensures
        i == clip(x as int),
{
    if x > isize::MAX as usize {
        isize::MAX
    } else {
        x as isize
    }
}

/// The number `i` as a `usize`, with zero for a negative number.
pub fn to_unsigned(i: isize) -> (x: usize)
    ensures
        x == unsign(i),
{
    if i < 0 {
        0
    } else {
        i as usize
    }
}

/// The position as a pair of signed numbers.
pub fn to_signed_pos(pos: (usize, usize)) -> (signed: (isize, isize))
    ensures
        signed == signed_pos(pos),
{
    (to_signed(pos.0), to_signed(pos.1))
}

impl Buffer {
    /// The current cursor.
    pub fn cursor(&self) -> (cursor: &Cursor)
        requires
            self.wf(),
        ensures
            *cursor == self@.cursor(),
    {
        &self.cursors[self.current_cursor as usize]
    }

    /// The position of the current cursor, bounded to the document (not
    /// tightly).
    pub fn pos(&self) -> (pos: (usize, usize))
        requires
            self.wf(),
        ensures
            pos == self@.pos(),
            pos.1 < self@.lines.len(),
            pos.0 <= self@.lines[pos.1 as int].len(),
    {
        let cursor = self.cursor();
        self.bound((cursor.x, cursor.y), false)
    }

    /// The column of the current cursor, bounded.
    pub fn x(&self) -> (x: usize)
        requires
            self.wf(),
        ensures
            x == self@.pos().0,
            x <= self@.lines[self@.pos().1 as int].len(),
    {
        self.pos().0
    }

    /// The row of the current cursor, bounded.
    pub fn y(&self) -> (y: usize)
        requires
            self.wf(),
        ensures
            y == self@.pos().1,
            y < self@.lines.len(),
    {
        self.pos().1
    }

    /// The position `pos` bounded to the current document: the row is
    /// brought into the document, then the column into the line of that
    /// row. With tight bounding the column ends on a character of the line
    /// (at 0 where the line is empty); without, it may also end just after
    /// the last character.
    pub fn bound(&self, pos: (usize, usize), tight: bool) -> (bound: (usize, usize))
        requires
            self.wf(),
        ensures
            bound == bounded(self@.lines, pos, tight),
            bound.1 < self@.lines.len(),
            bound.0 <= self@.lines[bound.1 as int].len(),
            tight && self@.lines[bound.1 as int].len() > 0 ==> bound.0 < self@.lines[bound.1 as int].len(),
    {
        let (x, y) = pos;
        let buffer = &self.raw_buffer;
        let count = buffer.len();
        let y = if y >= count {
            count - 1
        } else {
            y
        };
        let len = buffer.get_line(y).unwrap().len();
        if tight {
            if x >= len {
                if len == 0 {
                    (0, y)
                } else {
                    (len - 1, y)
                }
            } else {
                (x, y)
            }
        } else {
            if x > len {
                (len, y)
            } else {
                (x, y)
            }
        }
    }

    /// Bounds the column of `pos` and leaves its row as it is (the row is
    /// bounded only to find the line).
    pub fn bound_hor(&self, pos: (usize, usize), tight: bool) -> (bound: (usize, usize))
        requires
            self.wf(),
        ensures
            bound == bounded_hor(self@.lines, pos, tight),
    {
        (self.bound(pos, tight).0, pos.1)
    }

    /// Bounds the row of `pos` and leaves its column as it is.
    pub fn bound_ver(&self, pos: (usize, usize)) -> (bound: (usize, usize))
        requires
            self.wf(),
        ensures
            bound == bounded_ver(self@.lines, pos),
            bound.1 < self@.lines.len(),
    {
        let (x, y) = pos;
        let count = self.raw_buffer.len();
        let y = if y > count - 1 {
            count - 1
        } else {
            y
        };
        (x, y)
    }

    /// Tells the storage of the current document where the cursor is, so
    /// that work there is cheap. The text is not affected.
    pub fn hint(&mut self)
        requires
            old(self).wf(),
        ensures
            final(self).wf(),
            final(self)@ == old(self)@.hinted(),
    {
        let x = self.cursor().x;
        let y = self.bound_ver((x, self.cursor().y)).1;
        self.raw_buffer.focus_hint_y(y);
        self.raw_buffer.focus_hint_x(x);
        proof {
            self.raw_buffer.lemma_wf();
        }
    }
}


impl Editor {
    /// The position of the current cursor, bounded to the document (not
    /// tightly).
    pub fn pos(&self) -> (pos: (usize, usize))
        requires
            self.wf(),
        ensures
            pos == self@.pos(),
            pos.1 < self@.lines().len(),
            pos.0 <= self@.lines()[pos.1 as int].len(),
    {
        self.buffers.current_buffer_info().pos()
    }

    /// The column of the current cursor, bounded.
    pub fn x(&self) -> (x: usize)
        requires
            self.wf(),
        ensures
            x == self@.pos().0,
            x <= self@.lines()[self@.pos().1 as int].len(),
    {
        self.buffers.current_buffer_info().x()
    }

    /// The row of the current cursor, bounded.
    pub fn y(&self) -> (y: usize)
        requires
            self.wf(),
        ensures
            y == self@.pos().1,
            y < self@.lines().len(),
    {
        self.buffers.current_buffer_info().y()
    }

    /// The position `pos` bounded to the current document.
    pub fn bound(&self, pos: (usize, usize), tight: bool) -> (bound: (usize, usize))
        requires
            self.wf(),
        ensures
            bound == bounded(self@.lines(), pos, tight),
            bound.1 < self@.lines().len(),
            bound.0 <= self@.lines()[bound.1 as int].len(),
            tight && self@.lines()[bound.1 as int].len() > 0 ==> bound.0 < self@.lines()[bound.1 as int].len(),
    {
        self.buffers.current_buffer_info().bound(pos, tight)
    }

    /// Bounds the column of `pos` and leaves its row as it is.
    pub fn bound_hor(&self, pos: (usize, usize), tight: bool) -> (bound: (usize, usize))
        requires
            self.wf(),
        ensures
            bound == bounded_hor(self@.lines(), pos, tight),
    {
        self.buffers.current_buffer_info().bound_hor(pos, tight)
    }

    /// Bounds the row of `pos` and leaves its column as it is.
    pub fn bound_ver(&self, pos: (usize, usize)) -> (bound: (usize, usize))
        requires
            self.wf(),
        ensures
            bound == bounded_ver(self@.lines(), pos),
            bound.1 < self@.lines().len(),
    {
        self.buffers.current_buffer_info().bound_ver(pos)
    }

    /// Tells the storage of the current document where the cursor is, so
    /// that work there is cheap. The text is not affected.
    pub fn hint(&mut self)
        requires
            old(self).wf(),
        ensures
            final(self).wf(),
            final(self)@ == old(self)@.hinted(),
    {
        self.buffers.current_buffer_info_mut().hint();
    }
}

} // verus!
