//! Cursors.

use crate::state::buffers::{Buffer, Document, MAX_CURSORS};
use crate::state::editor::{Editor, EditorView};
use crate::state::mode::{CommandMode, Mode};
use vstd::string::StringExecFns;
use vstd::prelude::*;

verus! {

/// A cursor: a place in the document and the mode the editor is in when
/// this cursor is the current one. The place is kept as it was asked for;
/// it is bounded to the document when it is read.
#[derive(Copy, Clone, Debug, PartialEq, Eq, Structural)]
pub struct Cursor {
    /// The column.
    pub x: usize,
    /// The row.
    pub y: usize,
    /// The mode.
    pub mode: Mode,
}

impl Cursor {
    /// A cursor at the start of the document, in normal mode.
    pub fn new() -> (cursor: Cursor)
        ensures
            cursor == (Cursor { x: 0, y: 0, mode: Mode::Command(CommandMode::Normal) }),
    {
        Cursor { x: 0, y: 0, mode: Mode::Command(CommandMode::Normal) }
    }
}

impl Document {
    /// The document with a copy of the current cursor put in at the
    /// current index, and the cursor after it as the current one.
    pub open spec fn branched(self) -> Document {
        Document {
            cursors: self.cursors.insert(self.current_cursor as int, self.cursor()),
            ..self
        }.next_cursor()
    }

    /// The document without its current cursor, and the cursor before it
    /// as the current one (the last one, where it was the first).
    pub open spec fn killed(self) -> Document {
        let cursors = self.cursors.remove(self.current_cursor as int);
        Document {
            cursors,
            current_cursor: if self.current_cursor == 0 {
                (cursors.len() - 1) as nat
            } else {
                (self.current_cursor - 1) as nat
            },
            ..self
        }
    }

    /// The document with the current cursor in another mode.
    pub open spec fn in_mode(self, mode: Mode) -> Document {
        self.with_cursor(Cursor { mode, ..self.cursor() })
    }

    /// The document with the current cursor in another column.
    pub open spec fn in_column(self, x: usize) -> Document {
        self.with_cursor(Cursor { x, ..self.cursor() })
    }
}

impl EditorView {
    /// The editor after the current cursor was branched: with one more
    /// cursor where there is room for one, else with a message.
    pub open spec fn branched(self) -> EditorView {
        if self.doc().cursors.len() < MAX_CURSORS {
            self.with_doc(self.doc().branched())
        } else {
            self.with_msg("At max 255 cursors"@)
        }
    }

    /// The editor after the current cursor was killed: with one cursor
    /// less where there is another, else with a message.
    pub open spec fn killed(self) -> EditorView {
        if self.doc().cursors.len() > 1 {
            self.with_doc(self.doc().killed())
        } else {
            self.with_msg("No other cursors!"@)
        }
    }

    /// The editor with the current cursor in another mode.
    pub open spec fn in_mode(self, mode: Mode) -> EditorView {
        self.with_doc(self.doc().in_mode(mode))
    }

    /// The mode of the current cursor.
    pub open spec fn mode(self) -> Mode {
        self.cursor().mode
    }
}

impl Buffer {
    /// Puts a copy of the current cursor in at the current index and
    /// makes the cursor after it the current one. There must be room for
    /// one more cursor.
    pub fn branch_cursor(&mut self)
        requires
            old(self).wf(),
            old(self)@.cursors.len() < MAX_CURSORS,
        ensures
            final(self).wf(),
            final(self)@ == old(self)@.branched(),
    {
        let index = self.current_cursor as usize;
        let cursor = self.cursors[index];
        self.cursors.insert(index, cursor);
        let next = index + 1;
        self.current_cursor = if next >= self.cursors.len() {
            0
        } else {
            next as u8
        };
    }

    /// Removes the current cursor and makes the cursor before it the
    /// current one. There must be another cursor.
    pub fn kill_cursor(&mut self)
        requires
            old(self).wf(),
            old(self)@.cursors.len() > 1,
        ensures
            final(self).wf(),
            final(self)@ == old(self)@.killed(),
    {
        let index = self.current_cursor as usize;
        self.cursors.remove(index);
        self.current_cursor = if index == 0 {
            (self.cursors.len() - 1) as u8
        } else {
            (index - 1) as u8
        };
    }

    /// Puts the current cursor in another mode.
    pub fn set_mode(&mut self, mode: Mode)
        requires
            old(self).wf(),
        ensures
            final(self).wf(),
            final(self)@ == old(self)@.in_mode(mode),
    {
        let index = self.current_cursor as usize;
        let cursor = self.cursors[index];
        self.cursors[index] = Cursor { x: cursor.x, y: cursor.y, mode };
    }
}

impl Editor {
    /// Branches the current cursor: a copy of it is put in at its index,
    /// and the cursor after it becomes the current one. A document takes
    /// 255 cursors; beyond that nothing changes and a message says so.
    pub fn branch_cursor(&mut self)
        requires
            old(self).wf(),
        ensures
            final(self).wf(),
            final(self)@ == old(self)@.branched(),
    {
        if self.buffers.current_buffer_info().cursors.len() < MAX_CURSORS {
            self.buffers.current_buffer_info_mut().branch_cursor();
        } else {
            self.status_bar.msg = String::from_str("At max 255 cursors");
        }
    }

    /// Kills the current cursor: it is removed, and the cursor before it
    /// becomes the current one. The last cursor of a document stays; a
    /// message says so.
    pub fn kill_cursor(&mut self)
        requires
            old(self).wf(),
        ensures
            final(self).wf(),
            final(self)@ == old(self)@.killed(),
    {
        if self.buffers.current_buffer_info().cursors.len() > 1 {
            self.buffers.current_buffer_info_mut().kill_cursor();
        } else {
            self.status_bar.msg = String::from_str("No other cursors!");
        }
    }

    /// Puts the current cursor in another mode.
    pub fn set_mode(&mut self, mode: Mode)
        requires
            old(self).wf(),
        ensures
            final(self).wf(),
            final(self)@ == old(self)@.in_mode(mode),
    {
        self.buffers.current_buffer_info_mut().set_mode(mode);
    }
}

} // verus!
