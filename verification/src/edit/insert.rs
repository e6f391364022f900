//! Typing text into the document.

use crate::caret::movement::after_pos;
use crate::edit::line::{indent_of, Line};
use crate::io::key::Key;
use crate::io::redraw::{redraw_line, RedrawTask};
use crate::state::buffers::{Buffer, Document};
use crate::state::editor::{Editor, EditorView};
use core::ops::Range;
use vstd::prelude::*;

verus! {

/// What a typed character does to the text at the cursor.
#[derive(Copy, Clone, Debug, PartialEq, Eq, Structural)]
pub enum InsertMode {
    /// The character goes in before the cursor.
    Insert,
    /// The character takes the place of the one under the cursor.
    Replace,
}

/// The options of insert mode.
#[derive(Copy, Clone, Debug, PartialEq, Eq, Structural)]
pub struct InsertOptions {
    /// The kind of insertion.
    pub mode: InsertMode,
}

/// The width of a tab, in spaces.
pub const TAB_WIDTH: usize = 4;

/// Four spaces.
pub open spec fn tab_spaces() -> Seq<char> {
    seq![' ', ' ', ' ', ' ']
}

impl Document {
    /// The document after a line break was typed at the cursor. The line
    /// is cut at the cursor; what was before it stays, what was after it
    /// becomes a new line just below, behind the indentation of the part
    /// that stayed if that is asked for. The cursor goes to the end of that
    /// indentation.
    pub open spec fn newline_inserted(self, autoindent: bool) -> Document {
        let (x, y) = self.pos();
        let first = self.line().subrange(0, x as int);
        let second = self.line().subrange(x as int, self.line().len() as int);
        let indent = if autoindent {
            indent_of(first)
        } else {
            Seq::<char>::empty()
        };
        Document {
            lines: self.lines.update(y as int, first).insert(y + 1, indent + second),
            ..self
        }.moved_to((indent.len() as usize, (y + 1) as usize))
    }

    /// The document after `text` was typed at the cursor in one go: the
    /// text goes in before the cursor, and the cursor goes right by its
    /// length.
    pub open spec fn text_inserted(self, text: Seq<char>) -> Document {
        let (x, y) = self.pos();
        let line = self.line();
        let changed = Document {
            lines: self.lines.update(
                y as int,
                line.subrange(0, x as int) + text + line.subrange(x as int, line.len() as int),
            ),
            ..self
        };
        changed.moved_to(changed.right(text.len() as usize, false))
    }

    /// The document with the character under the cursor, which must be on
    /// one, replaced by `c`, and the cursor on the next character of the
    /// text, if there is one.
    pub open spec fn overwritten(self, c: char) -> Document {
        let (x, y) = self.pos();
        let changed = self.with_line(y as int, self.line().update(x as int, c));
        match after_pos(changed.lines, 1, changed.pos()) {
            Some(p) => changed.moved_to(p),
            None => changed.hinted(),
        }
    }

    /// The document after `c` was typed at the cursor in replace mode. At
    /// the end of a line the cursor first goes on to the next character of
    /// the text; where there is none, nothing changes. Then the character
    /// under the cursor is overwritten, and the cursor goes on.
    pub open spec fn replaced(self, c: char) -> Document {
        if self.pos().0 == self.line().len() {
            match after_pos(self.lines, 1, self.pos()) {
                Some(p) => self.moved_to(p).overwritten(c),
                None => self.hinted(),
            }
        } else {
            self.overwritten(c)
        }
    }

    /// The row that typing `c` in replace mode overwrites a character on
    /// (the row of the cursor where it overwrites none).
    pub open spec fn replace_row(self) -> usize {
        if self.pos().0 == self.line().len() {
            match after_pos(self.lines, 1, self.pos()) {
                Some(p) => p.1,
                None => self.pos().1,
            }
        } else {
            self.pos().1
        }
    }
}

impl EditorView {
    /// The editor after the key `k` was typed in insert mode. A line break
    /// changes nothing where the document can take no further line.
    pub open spec fn inserted(self, k: Key, opts: InsertOptions) -> EditorView {
        let y = self.pos().1;
        if k == Key::Backspace && opts.mode == InsertMode::Insert {
            self.backspaced().hinted()
        } else if k == Key::Tab && opts.mode == InsertMode::Insert {
            self.with_doc(self.doc().text_inserted(tab_spaces())).with_redraw(redraw_line(y))
        } else if k is Char && opts.mode == InsertMode::Insert {
            if k->Char_0 == '\n' {
                if self.doc().has_room() {
                    self.with_doc(
                        self.doc().newline_inserted(self.options.autoindent),
                    ).with_redraw(RedrawTask::LinesAfter(y))
                } else {
                    self.hinted()
                }
            } else {
                self.with_doc(self.doc().text_inserted(seq![k->Char_0])).with_redraw(
                    redraw_line(y),
                )
            }
        } else if k is Char && opts.mode == InsertMode::Replace {
            self.with_doc(self.doc().replaced(k->Char_0)).with_redraw(
                redraw_line(self.doc().replace_row()),
            )
        } else {
            self.hinted()
        }
    }

    /// The editor after the characters of `text` were typed one after the
    /// other in insert mode.
    pub open spec fn inserted_str(self, text: Seq<char>, opts: InsertOptions) -> EditorView
        decreases text.len(),
    {
        if text.len() == 0 {
            self
        } else {
            self.inserted_str(text.drop_last(), opts).inserted(Key::Char(text.last()), opts)
        }
    }
}

impl Buffer {
    /// Breaks the line at the cursor: what was after the cursor becomes a
    /// new line just below, behind the indentation of the part that stayed
    /// if `autoindent` is set. The cursor goes to the end of that
    /// indentation.
    pub fn insert_newline(&mut self, autoindent: bool)
        requires
            old(self).wf(),
            old(self)@.has_room(),
        ensures
            final(self).wf(),
            final(self)@ == old(self)@.newline_inserted(autoindent),
    {
        let (x, y) = self.pos();
        let second = self.raw_buffer.get_line_mut(y).unwrap().split_off(x);
        let mut line = if autoindent {
            self.raw_buffer.get_indent(y)
        } else {
            Line::new()
        };
        let begin = line.len();
        line.push_slice(&second);
        self.raw_buffer.insert_line(y + 1, line);
        proof {
            self.raw_buffer.lemma_wf();
        }
        self.goto((begin, y + 1));
    }

    /// Puts `text` into the line before the cursor, and the cursor right
    /// by the length of the text.
    pub fn insert_text(&mut self, text: &Line)
        requires
            old(self).wf(),
        ensures
            final(self).wf(),
            final(self)@ == old(self)@.text_inserted(text@),
    {
        let (x, y) = self.pos();
        let line = self.raw_buffer.get_line_mut(y).unwrap();
        let rest = line.split_off(x);
        line.push_slice(text);
        line.push_slice(&rest);
        proof {
            self.raw_buffer.lemma_wf();
        }
        let right = self.right(text.len(), false);
        self.goto(right);
    }

    /// Replaces the character under the cursor, which must be on one, by
    /// `c`, and puts the cursor on the next character of the text, if
    /// there is one.
    pub fn overwrite(&mut self, c: char)
        requires
            old(self).wf(),
            old(self)@.pos().0 < old(self)@.line().len(),
        ensures
            final(self).wf(),
            final(self)@ == old(self)@.overwritten(c),
    {
        let (x, y) = self.pos();
        self.raw_buffer.get_line_mut(y).unwrap().set_char(x, c);
        proof {
            self.raw_buffer.lemma_wf();
        }
        match self.next(1) {
            Some(p) => self.goto(p),
            None => self.hint(),
        }
    }

    /// Types `c` over the text at the cursor. At the end of a line the
    /// cursor first goes on to the next character of the text; where there
    /// is none, nothing changes.
    pub fn replace(&mut self, c: char)
        requires
            old(self).wf(),
        ensures
            final(self).wf(),
            final(self)@ == old(self)@.replaced(c),
    {
        let (x, y) = self.pos();
        let len = self.raw_buffer.get_line(y).unwrap().len();
        if x == len {
            match self.next(1) {
                Some(p) => {
                    self.goto(p);
                    self.overwrite(c);
                },
                None => self.hint(),
            }
        } else {
            self.overwrite(c);
        }
    }

    /// The row that typing in replace mode overwrites a character on (the
    /// row of the cursor where it overwrites none).
    pub fn replace_row(&self) -> (row: usize)
        requires
            self.wf(),
        ensures
            row == self@.replace_row(),
    {
        let (x, y) = self.pos();
        let len = self.raw_buffer.get_line(y).unwrap().len();
        if x == len {
            match self.next(1) {
                Some(p) => p.1,
                None => y,
            }
        } else {
            y
        }
    }
}

/// A line of four spaces.
fn tab_line() -> (line: Line)
    ensures
        line@ == tab_spaces(),
{
    let mut line = Line::new();
    let mut i: usize = 0;
    while i < TAB_WIDTH
        invariant
            i <= TAB_WIDTH,
            line@ == tab_spaces().take(i as int),
        decreases TAB_WIDTH - i,
    {
        line.push(' ');
        assert(line@ =~= tab_spaces().take(i + 1));
        i += 1;
    }
    assert(tab_spaces().take(4) =~= tab_spaces());
    line
}

impl Editor {
    /// Takes the key `k` as typed in insert mode: a line break splits the
    /// line, backspace deletes backwards, tab puts in four spaces, and a
    /// character goes in before the cursor or, in replace mode, over the
    /// character under it. Other keys do nothing, and so does a line break
    /// in a document that can take no further line.
    pub fn insert(&mut self, k: Key, opts: InsertOptions)
        requires
            old(self).wf(),
        ensures
            final(self).wf(),
            final(self)@ == old(self)@.inserted(k, opts),
    {
        let y = self.y();
        match (opts.mode, k) {
            (InsertMode::Insert, Key::Backspace) => {
                self.backspace();
                self.hint();
            },
            (InsertMode::Insert, Key::Tab) => {
                let spaces = tab_line();
                self.redraw_task = RedrawTask::Lines(Range { start: y, end: y + 1 });
                self.buffers.current_buffer_info_mut().insert_text(&spaces);
            },
            (InsertMode::Insert, Key::Char(c)) => {
                if c == '\n' {
                    if self.buffers.current_buffer().len() < usize::MAX {
                        self.redraw_task = RedrawTask::LinesAfter(y);
                        let autoindent = self.options.autoindent;
                        self.buffers.current_buffer_info_mut().insert_newline(autoindent);
                    } else {
                        self.hint();
                    }
                } else {
                    let mut text = Line::new();
                    text.push(c);
                    assert(text@ =~= seq![c]);
                    self.redraw_task = RedrawTask::Lines(Range { start: y, end: y + 1 });
                    self.buffers.current_buffer_info_mut().insert_text(&text);
                }
            },
            (InsertMode::Replace, Key::Char(c)) => {
                let row = self.buffers.current_buffer_info().replace_row();
                self.redraw_task = RedrawTask::Lines(Range { start: row, end: row + 1 });
                self.buffers.current_buffer_info_mut().replace(c);
            },
            _ => {
                self.hint();
            },
        }
    }

    /// Takes the characters of `txt` as typed one after the other in
    /// insert mode.
    pub fn insert_str(&mut self, txt: &str, opts: InsertOptions)
        requires
            old(self).wf(),
        ensures
            final(self).wf(),
            final(self)@ == old(self)@.inserted_str(txt@, opts),
    {
        let chars = Line::from_str(txt);
        let n = chars.len();
        let mut i: usize = 0;
        while i < n
            invariant
                i <= n,
                n == chars@.len(),
                chars@ == txt@,
                self.wf(),
                self@ == old(self)@.inserted_str(txt@.take(i as int), opts),
            decreases n - i,
        {
            proof {
                let part = txt@.take(i + 1);
                assert(part.drop_last() =~= txt@.take(i as int));
                assert(part.last() == chars@[i as int]);
            }
            self.insert(Key::Char(chars.get(i)), opts);
            i += 1;
        }
        assert(txt@.take(n as int) =~= txt@);
    }
}

} // verus!
