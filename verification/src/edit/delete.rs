//! Deleting the character at the cursor, and the one before it.

use crate::caret::movement::before_pos;
use crate::io::redraw::{redraw_line, RedrawTask};
use crate::state::buffers::{Buffer, Document};
use crate::state::editor::{Editor, EditorView};
use core::ops::Range;
use vstd::prelude::*;
use vstd::string::StringExecFns;

verus! {

/// The lines after a deletion at `pos`, a position bounded to them. On a
/// character, that character goes. At the end of a line that is not the
/// last, the next line is joined onto it. At the end of the last line
/// nothing changes.
pub open spec fn deleted_at(lines: Seq<Seq<char>>, pos: (usize, usize)) -> Seq<Seq<char>> {
    let (x, y) = (pos.0 as int, pos.1 as int);
    if x < lines[y].len() {
        lines.update(y, lines[y].remove(x))
    } else if y + 1 < lines.len() {
        lines.update(y, lines[y] + lines[y + 1]).remove(y + 1)
    } else {
        lines
    }
}

/// What the renderer has to draw again after a deletion at `pos`: the row
/// where a character went, the rows from there on where lines were
/// joined, and what it had to before where nothing changed.
pub open spec fn redraw_after_delete(
    lines: Seq<Seq<char>>,
    pos: (usize, usize),
    task: RedrawTask,
) -> RedrawTask {
    if pos.0 < lines[pos.1 as int].len() {
        redraw_line(pos.1)
    } else if pos.1 + 1 < lines.len() {
        RedrawTask::LinesAfter(pos.1)
    } else {
        task
    }
}

impl Document {
    /// The document after a deletion at the cursor.
    pub open spec fn deleted(self) -> Document {
        Document { lines: deleted_at(self.lines, self.pos()), ..self }.hinted()
    }
}

impl EditorView {
    /// The editor after a deletion at the cursor.
    pub open spec fn deleted(self) -> EditorView {
        self.with_doc(self.doc().deleted()).with_redraw(
            redraw_after_delete(self.lines(), self.pos(), self.redraw_task),
        )
    }

    /// The editor after a backspace: a deletion at the position one
    /// character before the cursor, where the cursor then is; or, at the
    /// start of the text, a message and no change.
    pub open spec fn backspaced(self) -> EditorView {
        match before_pos(self.lines(), 1, self.pos()) {
            Some(p) => self.moved_to(p).deleted(),
            None => self.with_msg("Can't delete file start"@),
        }
    }
}

impl Buffer {
    /// Deletes at the cursor: the character under it; at the end of a
    /// line, the line break, so that the next line is joined on; at the end
    /// of the text, nothing.
    pub fn delete(&mut self)
        requires
            old(self).wf(),
        ensures
            final(self).wf(),
            final(self)@ == old(self)@.deleted(),
    {
        let (x, y) = self.pos();
        let len = self.raw_buffer.get_line(y).unwrap().len();
        let count = self.raw_buffer.len();
        if x < len {
            self.raw_buffer.get_line_mut(y).unwrap().remove(x);
        } else if y + 1 < count {
            let next = self.raw_buffer.remove_line(y + 1);
            self.raw_buffer.get_line_mut(y).unwrap().push_slice(&next);
            assert(self.raw_buffer@ =~= deleted_at(old(self)@.lines, (x, y)));
        }
        proof {
            self.raw_buffer.lemma_wf();
        }
        self.hint();
    }
}

impl Editor {
    /// Deletes at the cursor: the character under it; at the end of a
    /// line, the line break, so that the next line is joined on; at the end
    /// of the text, nothing.
    pub fn delete(&mut self)
        requires
            old(self).wf(),
        ensures
            final(self).wf(),
            final(self)@ == old(self)@.deleted(),
    {
        let (x, y) = self.pos();
        let len = self.buffers.current_buffer().get_line(y).unwrap().len();
        let count = self.buffers.current_buffer().len();
        if x < len {
            self.redraw_task = RedrawTask::Lines(Range { start: y, end: y + 1 });
        } else if y + 1 < count {
            self.redraw_task = RedrawTask::LinesAfter(y);
        }
        self.buffers.current_buffer_info_mut().delete();
    }

    /// Deletes the character before the cursor: the cursor goes one
    /// character back in the text, and what is there is deleted. At the
    /// start of the text nothing changes and a message says so.
    pub fn backspace(&mut self)
        requires
            old(self).wf(),
        ensures
            final(self).wf(),
            final(self)@ == old(self)@.backspaced(),
    {
        let previous = self.previous(1);
        if let Some(p) = previous {
            self.goto(p);
            self.delete();
        } else {
            self.status_bar.msg = String::from_str("Can't delete file start");
        }
    }
}

} // verus!
