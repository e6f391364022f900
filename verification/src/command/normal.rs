//! The commands of normal mode.

use crate::caret::motion::row_of_count;
use crate::caret::position::bounded;
use crate::edit::insert::{InsertMode, InsertOptions};
use crate::edit::line::{indent_of, Line};
use crate::io::key::Key;
use crate::io::parse::{Operator, Parameter, Pending};
use crate::io::redraw::RedrawTask;
use crate::state::buffers::{Buffer, Document};
use crate::state::editor::{Editor, EditorView};
use crate::state::mode::{CommandMode, Mode, PrimitiveMode};
use vstd::prelude::*;
use vstd::string::StringExecFns;

verus! {

/// Normal mode.
pub open spec fn normal_mode() -> Mode {
    Mode::Command(CommandMode::Normal)
}

/// Insert mode, with typed characters going in before the cursor.
pub open spec fn insert_mode() -> Mode {
    Mode::Primitive(PrimitiveMode::Insert(InsertOptions { mode: InsertMode::Insert }))
}

/// Insert mode, with typed characters going over the text.
pub open spec fn replace_mode() -> Mode {
    Mode::Primitive(PrimitiveMode::Insert(InsertOptions { mode: InsertMode::Replace }))
}

/// Prompt mode.
pub open spec fn prompt_mode() -> Mode {
    Mode::Primitive(PrimitiveMode::Prompt)
}

/// Fifteen times `n`, or the largest `usize` where that does not fit.
pub open spec fn fifteen_times(n: usize) -> usize {
    if 15 * n > usize::MAX {
        usize::MAX
    } else {
        (15 * n) as usize
    }
}

/// `n` less three, or zero.
pub open spec fn three_less(n: usize) -> usize {
    if n < 3 {
        0
    } else {
        (n - 3) as usize
    }
}

impl Document {
    /// The document with an (indented) empty line below the row of the
    /// cursor and the cursor at the end of it.
    pub open spec fn opened_below(self, autoindent: bool) -> Document {
        let y = self.pos().1;
        let indent = if autoindent {
            indent_of(self.line())
        } else {
            Seq::<char>::empty()
        };
        Document { lines: self.lines.insert(y + 1, indent), ..self }.moved_to(
            (indent.len() as usize, (y + 1) as usize),
        )
    }

    /// The document with `c` in the place of the character under the
    /// cursor; with `c` at the end of the line where the cursor is on no
    /// character.
    pub open spec fn char_replaced(self, c: char) -> Document {
        let (x, y) = self.pos();
        if x < self.line().len() {
            self.with_line(y as int, self.line().update(x as int, c))
        } else {
            self.with_line(y as int, self.line().push(c))
        }
    }

    /// The document scrolled to row `y`.
    pub open spec fn scrolled(self, y: usize) -> Document {
        Document { scroll_y: y as nat, ..self }
    }
}

impl EditorView {
    /// The editor with its cursor at `target`. Where `report` is set, the
    /// renderer is told where the cursor was and where it is.
    pub open spec fn jumped(self, target: (usize, usize), report: bool) -> EditorView {
        let moved = self.moved_to(target);
        if report {
            moved.with_redraw(RedrawTask::Cursor(self.pos(), moved.pos()))
        } else {
            moved
        }
    }

    /// The editor with its cursor in column 0, and the renderer told of
    /// the move.
    pub open spec fn at_line_start(self) -> EditorView {
        let moved = self.with_doc(self.doc().in_column(0));
        moved.with_redraw(RedrawTask::Cursor(self.pos(), moved.pos()))
    }

    /// The editor with its cursor bounded tightly: on a character of its
    /// line, where the line has one.
    pub open spec fn tightened(self) -> EditorView {
        self.moved_to(bounded(self.lines(), self.pos(), true))
    }

    /// The editor scrolled to the row of `target`, with its cursor there.
    pub open spec fn scrolled_to(self, target: (usize, usize)) -> EditorView {
        self.with_doc(self.doc().scrolled(target.1).moved_to(target)).with_redraw(RedrawTask::Full)
    }

    /// The editor scrolled to row `y`.
    pub open spec fn scrolled(self, y: usize) -> EditorView {
        self.with_doc(self.doc().scrolled(y)).with_redraw(RedrawTask::Full)
    }

    /// The editor waiting for what `pending` names.
    pub open spec fn awaiting(self, pending: Pending) -> EditorView {
        EditorView { pending, ..self }
    }

    /// The editor with a message for the user, and the renderer asked to
    /// show it.
    pub open spec fn complaining(self, msg: Seq<char>) -> EditorView {
        self.with_msg(msg).with_redraw(RedrawTask::StatusBar)
    }

    /// The editor in insert mode with its cursor in column 0.
    pub open spec fn inserting_at_start(self) -> EditorView {
        self.with_doc(self.doc().in_column(0)).in_mode(insert_mode())
    }

    /// The editor in insert mode with its cursor one column further
    /// right.
    pub open spec fn appending(self) -> EditorView {
        self.moved_to(self.doc().right(1, false)).in_mode(insert_mode())
    }

    /// The editor in insert mode with its cursor at the end of the line.
    pub open spec fn appending_to_line(self) -> EditorView {
        self.moved_to((self.doc().line().len() as usize, self.pos().1)).in_mode(insert_mode())
    }

    /// The editor in insert mode on a new line below the cursor. Where
    /// the document can take no further line, nothing changes.
    pub open spec fn opening_below(self) -> EditorView {
        if self.doc().has_room() {
            self.with_doc(self.doc().opened_below(self.options.autoindent)).with_redraw(
                RedrawTask::LinesAfter(self.pos().1),
            ).in_mode(insert_mode())
        } else {
            self
        }
    }

    /// The editor with its cursor on the last character of the line,
    /// where the line has one.
    pub open spec fn at_line_end(self) -> EditorView {
        if self.doc().line().len() != 0 {
            self.jumped(((self.doc().line().len() - 1) as usize, self.pos().1), true)
        } else {
            self
        }
    }

    /// The editor after the character under the cursor was deleted: the
    /// cursor is first put on a character, and is on one again afterwards.
    pub open spec fn char_deleted(self) -> EditorView {
        self.tightened().deleted().tightened()
    }

    /// The editor after the character before the cursor was deleted, with
    /// the cursor on a character.
    pub open spec fn char_deleted_before(self) -> EditorView {
        self.backspaced().tightened()
    }

    /// The editor after the command of normal mode that `key` names, with
    /// the count `para`. A command that needs more input leaves the editor
    /// waiting for it. Repeating is not among these commands: here `.` has
    /// nothing to repeat.
    pub open spec fn normal_command(self, para: Parameter, key: Key) -> EditorView {
        let n = para.spec_d();
        let doc = self.doc();
        let y = self.pos().1;
        match key {
            Key::Left => self.jumped(doc.left(n), true),
            Key::Down => self.jumped(doc.down(n), true),
            Key::Up => self.jumped(doc.up(n), true),
            Key::Right => self.jumped(doc.right(n, true), true),
            Key::Char(c) => if c == 'i' {
                self.in_mode(insert_mode())
            } else if c == 'I' {
                self.inserting_at_start()
            } else if c == 'a' {
                self.appending()
            } else if c == 'A' {
                self.appending_to_line()
            } else if c == 'o' {
                self.opening_below()
            } else if c == 'R' {
                self.in_mode(replace_mode())
            } else if c == ';' {
                self.in_mode(prompt_mode())
            } else if c == 'h' {
                self.jumped(doc.left(n), true)
            } else if c == 'j' {
                self.jumped(doc.down(n), true)
            } else if c == 'k' {
                self.jumped(doc.up(n), true)
            } else if c == 'l' {
                self.jumped(doc.right(n, true), true)
            } else if c == 'J' {
                self.jumped(doc.down(fifteen_times(n)), true)
            } else if c == 'K' {
                self.jumped(doc.up(fifteen_times(n)), true)
            } else if c == 'L' || c == '$' {
                self.at_line_end()
            } else if c == 'H' || c == '0' {
                self.at_line_start()
            } else if c == 'G' {
                self.jumped((0, (doc.lines.len() - 1) as usize), true)
            } else if c == 'g' {
                match para {
                    Parameter::Int(row) => self.jumped((0, row_of_count(row)), true),
                    Parameter::Null => self.awaiting(Pending::Motion(Operator::Jump(true))),
                }
            } else if c == 'x' {
                self.char_deleted()
            } else if c == 'X' {
                self.char_deleted_before()
            } else if c == 'r' {
                self.awaiting(Pending::Replace)
            } else if c == 'd' {
                self.awaiting(Pending::Motion(Operator::Delete))
            } else if c == 'c' {
                self.awaiting(Pending::Motion(Operator::Change))
            } else if c == 't' {
                self.awaiting(Pending::Find(true, n, Operator::Jump(true)))
            } else if c == 'f' {
                self.awaiting(Pending::Find(false, n, Operator::Jump(true)))
            } else if c == 'b' {
                self.branched()
            } else if c == 'B' {
                self.killed()
            } else if c == ' ' {
                self.with_doc(doc.next_cursor())
            } else if c == 'z' {
                match para {
                    Parameter::Int(row) => self.scrolled(row),
                    Parameter::Null => self.awaiting(Pending::Motion(Operator::Scroll)),
                }
            } else if c == 'Z' {
                self.scrolled(three_less(y))
            } else if c == '~' {
                self.chars_inverted(n)
            } else if c == '.' {
                self.complaining("No previous command"@)
            } else {
                self.complaining("Unknown command: "@.push(c))
            },
            _ => self.complaining("Unknown command"@),
        }
    }
}

impl Buffer {
    /// Opens an empty line below the row of the cursor, indented like
    /// that row if `autoindent` is set, and puts the cursor at its end.
    pub fn open_below(&mut self, autoindent: bool)
        requires
            old(self).wf(),
            old(self)@.has_room(),
        ensures
            final(self).wf(),
            final(self)@ == old(self)@.opened_below(autoindent),
    {
        let y = self.y();
        let indent = if autoindent {
            self.raw_buffer.get_indent(y)
        } else {
            Line::new()
        };
        let last = indent.len();
        self.raw_buffer.insert_line(y + 1, indent);
        proof {
            self.raw_buffer.lemma_wf();
        }
        self.goto((last, y + 1));
    }

    /// Puts `c` in the place of the character under the cursor; at the
    /// end of the line where the cursor is on no character.
    pub fn replace_char(&mut self, c: char)
        requires
            old(self).wf(),
        ensures
            final(self).wf(),
            final(self)@ == old(self)@.char_replaced(c),
    {
        let (x, y) = self.pos();
        let line = self.raw_buffer.get_line_mut(y).unwrap();
        if x < line.len() {
            line.set_char(x, c);
        } else {
            line.push(c);
        }
        proof {
            self.raw_buffer.lemma_wf();
        }
    }
}

/// Fifteen times `n`, or the largest `usize` where that does not fit.
pub fn times_fifteen(n: usize) -> (product: usize)
    ensures
        product == fifteen_times(n),
{
    if n > usize::MAX / 15 {
        usize::MAX
    } else {
        15 * n
    }
}

impl Editor {
    /// Puts the cursor at `target`; where `report` is set, tells the
    /// renderer where the cursor was and where it is.
    pub fn jump(&mut self, target: (usize, usize), report: bool)
        requires
            old(self).wf(),
        ensures
            final(self).wf(),
            final(self)@ == old(self)@.jumped(target, report),
    {
        let before = self.pos();
        self.goto(target);
        if report {
            self.redraw_task = RedrawTask::Cursor(before, self.pos());
        }
    }

    /// Bounds the cursor tightly: puts it on a character of its line,
    /// where the line has one.
    pub fn tighten(&mut self)
        requires
            old(self).wf(),
        ensures
            final(self).wf(),
            final(self)@ == old(self)@.tightened(),
    {
        let bounded = self.bound(self.pos(), true);
        self.goto(bounded);
    }

    /// Says `msg` in the status bar and asks the renderer to show it.
    pub fn complain(&mut self, msg: String)
        requires
            old(self).wf(),
        ensures
            final(self).wf(),
            final(self)@ == old(self)@.complaining(msg@),
    {
        self.status_bar.msg = msg;
        self.redraw_task = RedrawTask::StatusBar;
    }

    /// Scrolls the current document to row `y`.
    pub fn scroll_to(&mut self, y: usize)
        requires
            old(self).wf(),
        ensures
            final(self).wf(),
            final(self)@ == old(self)@.scrolled(y),
    {
        self.buffers.current_buffer_info_mut().scroll_y = y;
        self.redraw_task = RedrawTask::Full;
    }

    /// Enters insert mode with the cursor in column 0.
    pub fn insert_at_start(&mut self)
        requires
            old(self).wf(),
        ensures
            final(self).wf(),
            final(self)@ == old(self)@.inserting_at_start(),
    {
        self.cursor_mut().x = 0;
        self.set_mode(
            Mode::Primitive(PrimitiveMode::Insert(InsertOptions { mode: InsertMode::Insert })),
        );
    }

    /// Enters insert mode with the cursor one column further right.
    pub fn append(&mut self)
        requires
            old(self).wf(),
        ensures
            final(self).wf(),
            final(self)@ == old(self)@.appending(),
    {
        let pos = self.right(1, false);
        self.goto(pos);
        self.set_mode(
            Mode::Primitive(PrimitiveMode::Insert(InsertOptions { mode: InsertMode::Insert })),
        );
    }

    /// Enters insert mode with the cursor at the end of the line.
    pub fn append_to_line(&mut self)
        requires
            old(self).wf(),
        ensures
            final(self).wf(),
            final(self)@ == old(self)@.appending_to_line(),
    {
        let y = self.y();
        let len = self.buffers.current_buffer().get_line(y).unwrap().len();
        self.goto((len, y));
        self.set_mode(
            Mode::Primitive(PrimitiveMode::Insert(InsertOptions { mode: InsertMode::Insert })),
        );
    }

    /// Opens a line below the cursor, indented like the line of the
    /// cursor if that option is set, and enters insert mode at its end.
    /// Where the document can take no further line, nothing changes.
    pub fn open_below(&mut self)
        requires
            old(self).wf(),
        ensures
            final(self).wf(),
            final(self)@ == old(self)@.opening_below(),
    {
        if self.buffers.current_buffer().len() < usize::MAX {
            let y = self.y();
            let autoindent = self.options.autoindent;
            self.buffers.current_buffer_info_mut().open_below(autoindent);
            self.redraw_task = RedrawTask::LinesAfter(y);
            self.set_mode(
                Mode::Primitive(PrimitiveMode::Insert(InsertOptions { mode: InsertMode::Insert })),
            );
        }
    }

    /// Puts the cursor on the last character of the line, where the line
    /// has one.
    pub fn go_line_end(&mut self)
        requires
            old(self).wf(),
        ensures
            final(self).wf(),
            final(self)@ == old(self)@.at_line_end(),
    {
        let y = self.y();
        let len = self.buffers.current_buffer().get_line(y).unwrap().len();
        if len != 0 {
            self.jump((len - 1, y), true);
        }
    }

    /// Puts the cursor in column 0.
    pub fn go_line_start(&mut self)
        requires
            old(self).wf(),
        ensures
            final(self).wf(),
            final(self)@ == old(self)@.at_line_start(),
    {
        let before = self.pos();
        self.cursor_mut().x = 0;
        self.redraw_task = RedrawTask::Cursor(before, self.pos());
    }

    /// Deletes the character under the cursor and keeps the cursor on a
    /// character.
    pub fn delete_char(&mut self)
        requires
            old(self).wf(),
        ensures
            final(self).wf(),
            final(self)@ == old(self)@.char_deleted(),
    {
        self.tighten();
        self.delete();
        self.tighten();
    }

    /// Deletes the character before the cursor and keeps the cursor on a
    /// character.
    pub fn delete_char_before(&mut self)
        requires
            old(self).wf(),
        ensures
            final(self).wf(),
            final(self)@ == old(self)@.char_deleted_before(),
    {
        self.backspace();
        self.tighten();
    }

    /// Leaves the editor waiting for what `pending` names.
    pub fn await_input(&mut self, pending: Pending)
        requires
            old(self).wf(),
        ensures
            final(self).wf(),
            final(self)@ == old(self)@.awaiting(pending),
    {
        self.pending = pending;
    }

    /// Carries out the command of normal mode that `key` names, with the
    /// count `para`: the keys that enter another mode, that move the
    /// cursor, that delete, invert or replace, that branch and kill
    /// cursors, and that scroll. A command that needs a motion or a
    /// character leaves the editor waiting for it. A key that names no
    /// command leaves a message.
    pub fn normal_command(&mut self, para: Parameter, key: Key)
        requires
            old(self).wf(),
        ensures
            final(self).wf(),
            final(self)@ == old(self)@.normal_command(para, key),
    {
        let n = para.d();
        match key {
            Key::Left => {
                let left = self.left(n);
                self.jump(left, true);
            },
            Key::Down => {
                let down = self.down(n);
                self.jump(down, true);
            },
            Key::Up => {
                let up = self.up(n);
                self.jump(up, true);
            },
            Key::Right => {
                let right = self.right(n, true);
                self.jump(right, true);
            },
            Key::Char(c) => if c == 'i' {
                self.set_mode(
                    Mode::Primitive(
                        PrimitiveMode::Insert(InsertOptions { mode: InsertMode::Insert }),
                    ),
                );
            } else if c == 'I' {
                self.insert_at_start();
            } else if c == 'a' {
                self.append();
            } else if c == 'A' {
                self.append_to_line();
            } else if c == 'o' {
                self.open_below();
            } else if c == 'R' {
                self.set_mode(
                    Mode::Primitive(
                        PrimitiveMode::Insert(InsertOptions { mode: InsertMode::Replace }),
                    ),
                );
            } else if c == ';' {
                self.set_mode(Mode::Primitive(PrimitiveMode::Prompt));
            } else if c == 'h' {
                let left = self.left(n);
                self.jump(left, true);
            } else if c == 'j' {
                let down = self.down(n);
                self.jump(down, true);
            } else if c == 'k' {
                let up = self.up(n);
                self.jump(up, true);
            } else if c == 'l' {
                let right = self.right(n, true);
                self.jump(right, true);
            } else if c == 'J' {
                let down = self.down(times_fifteen(n));
                self.jump(down, true);
            } else if c == 'K' {
                let up = self.up(times_fifteen(n));
                self.jump(up, true);
            } else if c == 'L' || c == '$' {
                self.go_line_end();
            } else if c == 'H' || c == '0' {
                self.go_line_start();
            } else if c == 'G' {
                let last = self.buffers.current_buffer().len() - 1;
                self.jump((0, last), true);
            } else if c == 'g' {
                match para {
                    Parameter::Int(row) => self.jump((0, row.wrapping_sub(1)), true),
                    Parameter::Null => self.await_input(Pending::Motion(Operator::Jump(true))),
                }
            } else if c == 'x' {
                self.delete_char();
            } else if c == 'X' {
                self.delete_char_before();
            } else if c == 'r' {
                self.await_input(Pending::Replace);
            } else if c == 'd' {
                self.await_input(Pending::Motion(Operator::Delete));
            } else if c == 'c' {
                self.await_input(Pending::Motion(Operator::Change));
            } else if c == 't' {
                self.await_input(Pending::Find(true, n, Operator::Jump(true)));
            } else if c == 'f' {
                self.await_input(Pending::Find(false, n, Operator::Jump(true)));
            } else if c == 'b' {
                self.branch_cursor();
            } else if c == 'B' {
                self.kill_cursor();
            } else if c == ' ' {
                self.next_cursor();
            } else if c == 'z' {
                match para {
                    Parameter::Int(row) => self.scroll_to(row),
                    Parameter::Null => self.await_input(Pending::Motion(Operator::Scroll)),
                }
            } else if c == 'Z' {
                let y = self.y();
                self.scroll_to(
                    if y < 3 {
                        0
                    } else {
                        y - 3
                    },
                );
            } else if c == '~' {
                self.invert_chars(n);
            } else if c == '.' {
                self.complain(String::from_str("No previous command"));
            } else {
                let mut msg = String::from_str("Unknown command: ");
                msg.push(c);
                self.complain(msg);
            },
            _ => {
                self.complain(String::from_str("Unknown command"));
            },
        }
    }
}

} // verus!
