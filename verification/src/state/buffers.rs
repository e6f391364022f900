//! The documents of the editor and the manager that owns them.

use crate::edit::buffer::SplitBuffer;
use crate::state::cursor::Cursor;
use crate::state::mode::{CommandMode, Mode};
use vstd::prelude::*;

verus! {

/// The most cursors a document can have.
pub const MAX_CURSORS: usize = 255;

/// A document as contracts see it: its lines, where the focus of its
/// storage lies, its cursors, its scroll offset and what names it.
pub struct Document {
    /// The lines, in logical order.
    pub lines: Seq<Seq<char>>,
    /// The focus row of the storage.
    pub focus: nat,
    /// The cursors.
    pub cursors: Seq<Cursor>,
    /// The index of the current cursor.
    pub current_cursor: nat,
    /// The first column shown.
    pub scroll_x: nat,
    /// The first row shown.
    pub scroll_y: nat,
    /// The title, if the document has one.
    pub title: Option<Seq<char>>,
    /// Whether the document goes away when the user leaves it.
    pub is_transient: bool,
}

impl Document {
    /// The invariant of a document: it has a line and a cursor, no more
    /// cursors than allowed, and its focus and its current cursor exist.
    pub open spec fn wf(self) -> bool {
        &&& 1 <= self.lines.len() <= usize::MAX
        &&& self.focus < self.lines.len()
        &&& 1 <= self.cursors.len() <= MAX_CURSORS
        &&& self.current_cursor < self.cursors.len()
    }

    /// The current cursor.
    pub open spec fn cursor(self) -> Cursor {
        self.cursors[self.current_cursor as int]
    }

    /// The document with its current cursor replaced.
    pub open spec fn with_cursor(self, cursor: Cursor) -> Document {
        Document { cursors: self.cursors.update(self.current_cursor as int, cursor), ..self }
    }

    /// The document with row `y` replaced by `line`.
    pub open spec fn with_line(self, y: int, line: Seq<char>) -> Document {
        Document { lines: self.lines.update(y, line), ..self }
    }

    /// Whether the document can take one more line.
    pub open spec fn has_room(self) -> bool {
        self.lines.len() < usize::MAX
    }

    /// The document with the cursor after the current one as the current
    /// one; after the last cursor comes the first.
    pub open spec fn next_cursor(self) -> Document {
        Document {
            current_cursor: if self.current_cursor + 1 >= self.cursors.len() {
                0
            } else {
                self.current_cursor + 1
            },
            ..self
        }
    }

    /// The document with the cursor before the current one as the current
    /// one; before the first cursor comes the last.
    pub open spec fn prev_cursor(self) -> Document {
        Document {
            current_cursor: if self.current_cursor == 0 {
                (self.cursors.len() - 1) as nat
            } else {
                (self.current_cursor - 1) as nat
            },
            ..self
        }
    }

    /// A fresh document: one empty line, one cursor at its start in normal
    /// mode, no title.
    pub open spec fn fresh() -> Document {
        Document {
            lines: seq![Seq::<char>::empty()],
            focus: 0,
            cursors: seq![Cursor { x: 0, y: 0, mode: Mode::Command(CommandMode::Normal) }],
            current_cursor: 0,
            scroll_x: 0,
            scroll_y: 0,
            title: None,
            is_transient: false,
        }
    }
}

/// The view of an optional string.
pub open spec fn optional_text(s: Option<String>) -> Option<Seq<char>> {
    match s {
        Some(s) => Some(s@),
        None => None,
    }
}

/// A document: the text storage together with the cursors, the scroll
/// offset, the title and whether the document is a throwaway one.
pub struct Buffer {
    /// The text.
    pub raw_buffer: SplitBuffer,
    /// The index of the current cursor.
    pub current_cursor: u8,
    /// The cursors. There is always at least one.
    pub cursors: Vec<Cursor>,
    /// The first column shown.
    pub scroll_x: usize,
    /// The first row shown.
    pub scroll_y: usize,
    /// The title of the document.
    pub title: Option<String>,
    /// True if the document is to be deleted as soon as it is no longer
    /// the current one.
    pub is_transient: bool,
}

impl View for Buffer {
    type V = Document;

    open spec fn view(&self) -> Document {
        Document {
            lines: self.raw_buffer@,
            focus: self.raw_buffer.focus(),
            cursors: self.cursors@,
            current_cursor: self.current_cursor as nat,
            scroll_x: self.scroll_x as nat,
            scroll_y: self.scroll_y as nat,
            title: optional_text(self.title),
            is_transient: self.is_transient,
        }
    }
}

impl Buffer {
    /// The invariant of a document record.
    pub open spec fn wf(&self) -> bool {
        &&& self.raw_buffer.wf()
        &&& self@.wf()
    }

    /// A fresh document: one empty line, one cursor at its start in normal
    /// mode, no title.
    pub fn new() -> (buffer: Buffer)
        ensures
            buffer.wf(),
            buffer@ == Document::fresh(),
    {
        let mut cursors: Vec<Cursor> = Vec::new();
        cursors.push(Cursor::new());
        let buffer = Buffer {
            raw_buffer: SplitBuffer::new(),
            current_cursor: 0,
            cursors,
            scroll_x: 0,
            scroll_y: 0,
            title: None,
            is_transient: false,
        };
        proof {
            buffer.raw_buffer.lemma_wf();
            assert(buffer@.cursors =~= Document::fresh().cursors);
        }
        buffer
    }

    /// A fresh document around the given text storage.
    pub fn from(b: SplitBuffer) -> (buffer: Buffer)
        requires
            b.wf(),
        ensures
            buffer.wf(),
            buffer@ == (Document { lines: b@, focus: b.focus(), ..Document::fresh() }),
    {
        let mut buffer = Buffer::new();
        buffer.raw_buffer = b;
        proof {
            b.lemma_wf();
        }
        buffer
    }
}

/// The documents of an editor as contracts see them.
pub struct Documents {
    /// The documents, in the order in which they were added.
    pub buffers: Seq<Document>,
    /// The index of the current document.
    pub current: nat,
}

/// How many of the documents are not transient.
pub open spec fn count_lasting(buffers: Seq<Document>) -> nat
    decreases buffers.len(),
{
    if buffers.len() == 0 {
        0
    } else {
        count_lasting(buffers.drop_last()) + if buffers.last().is_transient {
            0nat
        } else {
            1nat
        }
    }
}

impl Documents {
    /// The invariant: there is a document, the current one exists, and each
    /// document is well-formed.
    pub open spec fn wf(self) -> bool {
        &&& self.buffers.len() >= 1
        &&& self.current < self.buffers.len()
        &&& forall|i: int| 0 <= i < self.buffers.len() ==> (#[trigger] self.buffers[i]).wf()
    }

    /// The current document.
    pub open spec fn doc(self) -> Document {
        self.buffers[self.current as int]
    }

    /// The documents with the current one replaced.
    pub open spec fn with_doc(self, doc: Document) -> Documents {
        Documents { buffers: self.buffers.update(self.current as int, doc), ..self }
    }

    /// The documents with one more at the end.
    pub open spec fn added(self, doc: Document) -> Documents {
        Documents { buffers: self.buffers.push(doc), ..self }
    }

    /// The documents after document `n` was deleted. Where it was the only
    /// one, a fresh document takes its place. The current index moves down
    /// by one where the deleted document was at or before it, and stays at
    /// zero where it was zero.
    pub open spec fn deleted(self, n: nat) -> Documents {
        if self.buffers.len() == 1 {
            Documents { buffers: seq![Document::fresh()], current: 0 }
        } else {
            Documents {
                buffers: self.buffers.remove(n as int),
                current: if n <= self.current && self.current > 0 {
                    (self.current - 1) as nat
                } else {
                    self.current
                },
            }
        }
    }

    /// The documents after the switch to document `n`. A transient current
    /// document is deleted on the way; the target is then one lower where
    /// it was not before the deleted document (and stays at zero where it
    /// was zero).
    pub open spec fn switched(self, n: nat) -> Documents {
        if self.doc().is_transient {
            Documents {
                current: if self.current <= n && n > 0 {
                    (n - 1) as nat
                } else {
                    n
                },
                ..self.deleted(self.current)
            }
        } else {
            Documents { current: n, ..self }
        }
    }

    /// Whether `n` is the number of a document that the user can name:
    /// transient documents are not counted.
    pub open spec fn index_valid(self, n: nat) -> bool {
        n < count_lasting(self.buffers)
    }
}

/// The views of a sequence of document records.
pub open spec fn documents_of(buffers: Seq<Buffer>) -> Seq<Document> {
    Seq::new(buffers.len(), |i: int| buffers[i]@)
}

/// The owner of the documents of an editor, one of which is the current
/// one. There is always at least one document.
pub struct BufferManager {
    buffers: Vec<Buffer>,
    current_buffer_index: usize,
}

impl View for BufferManager {
    type V = Documents;

    closed spec fn view(&self) -> Documents {
        Documents {
            buffers: documents_of(self.buffers@),
            current: self.current_buffer_index as nat,
        }
    }
}

impl BufferManager {
    /// The invariant of the manager: its view is well-formed, and so is
    /// the storage of each document.
    pub closed spec fn wf(&self) -> bool {
        &&& self@.wf()
        &&& forall|i: int| 0 <= i < self.buffers@.len() ==> (#[trigger] self.buffers@[i]).wf()
    }

    /// The view of a well-formed manager is well-formed.
    pub proof fn lemma_wf(&self)
        requires
            self.wf(),
        ensures
            self@.wf(),
            self@.doc().wf(),
    {
    }

    /// A manager with one fresh document.
    pub fn new() -> (manager: BufferManager)
        ensures
            manager.wf(),
            manager@ == (Documents { buffers: seq![Document::fresh()], current: 0 }),
    {
        let mut buffers: Vec<Buffer> = Vec::new();
        buffers.push(Buffer::new());
        let manager = BufferManager { buffers, current_buffer_index: 0 };
        assert(manager@.buffers =~= seq![Document::fresh()]);
        manager
    }

    /// Adds a document at the end and returns its index.
    pub fn new_buffer(&mut self, buffer: Buffer) -> (index: usize)
        requires
            old(self).wf(),
            buffer.wf(),
        ensures
            final(self).wf(),
            final(self)@ == old(self)@.added(buffer@),
            index == old(self)@.buffers.len(),
    {
        self.buffers.push(buffer);
        assert(self@.buffers =~= old(self)@.buffers.push(buffer@));
        self.buffers.len() - 1
    }

    /// The documents, in order.
    pub fn iter(&self) -> (buffers: &[Buffer])
        requires
            self.wf(),
        ensures
            documents_of(buffers@) == self@.buffers,
            forall|i: int| 0 <= i < buffers@.len() ==> (#[trigger] buffers@[i]).wf(),
    {
        self.buffers.as_slice()
    }

    /// The number of documents.
    pub fn len(&self) -> (n: usize)
        requires
            self.wf(),
        ensures
            n == self@.buffers.len(),
            n >= 1,
    {
        self.buffers.len()
    }

    /// The index of the current document.
    pub fn current_buffer_index(&self) -> (index: usize)
        requires
            self.wf(),
        ensures
            index == self@.current,
            index < self@.buffers.len(),
    {
        self.current_buffer_index
    }

    /// The text of the current document.
    pub fn current_buffer(&self) -> (buffer: &SplitBuffer)
        requires
            self.wf(),
        ensures
            buffer.wf(),
            buffer@ == self@.doc().lines,
            buffer.focus() == self@.doc().focus,
    {
        &self.current_buffer_info().raw_buffer
    }

    /// The text of the current document, for writing. What the caller
    /// leaves there is the text of the current document from then on; as
    /// long as it is well-formed, so is the manager.
    pub fn current_buffer_mut(&mut self) -> (buffer: &mut SplitBuffer)
        requires
            old(self).wf(),
        ensures
            buffer.wf(),
            buffer@ == old(self)@.doc().lines,
            buffer.focus() == old(self)@.doc().focus,
            final(self)@ == old(self)@.with_doc(
                (Document {
                    lines: final(buffer)@,
                    focus: final(buffer).focus(),
                    ..old(self)@.doc()
                }),
            ),
            final(buffer).wf() ==> final(self).wf(),
    {
        proof {
            assert forall|b: SplitBuffer| #[trigger] b.wf() implies 1 <= b@.len() <= usize::MAX
                && b.focus() < b@.len() by {
                b.lemma_wf();
            }
        }
        &mut self.current_buffer_info_mut().raw_buffer
    }

    /// The current document.
    pub fn current_buffer_info(&self) -> (buffer: &Buffer)
        requires
            self.wf(),
        ensures
            buffer.wf(),
            buffer@ == self@.doc(),
    {
        &self.buffers[self.current_buffer_index]
    }

    /// The current document, for writing. What the caller leaves there is
    /// the current document from then on; as long as it is well-formed, so
    /// is the manager.
    pub fn current_buffer_info_mut(&mut self) -> (buffer: &mut Buffer)
        requires
            old(self).wf(),
        ensures
            buffer.wf(),
            *buffer == old(self).spec_current(),
            buffer@ == old(self)@.doc(),
            final(self)@ == old(self)@.with_doc(final(buffer)@),
            final(buffer).wf() ==> final(self).wf(),
    {
        let ghost buffers = self.buffers@;
        let ghost current = self.current_buffer_index as int;
        proof {
            assert forall|b: Buffer| #[trigger]
                documents_of(buffers.update(current, b)) == documents_of(buffers).update(
                    current,
                    b@,
                ) by {
                assert(documents_of(buffers.update(current, b)) =~= documents_of(buffers).update(
                    current,
                    b@,
                ));
            }
        }
        &mut self.buffers[self.current_buffer_index]
    }

    /// The record of the current document.
    pub closed spec fn spec_current(&self) -> Buffer {
        self.buffers@[self.current_buffer_index as int]
    }

    /// Makes document `n` the current one. Where the document that is
    /// left is transient, it is deleted on the way.
    pub fn switch_to(&mut self, n: usize)
        requires
            old(self).wf(),
            n < old(self)@.buffers.len(),
        ensures
            final(self).wf(),
            final(self)@ == old(self)@.switched(n as nat),
    {
        let mut n = n;
        if self.current_buffer_info().is_transient {
            let index = self.current_buffer_index;
            self.delete_buffer(index);
            if index <= n && n > 0 {
                n -= 1;
            }
        }
        self.current_buffer_index = n;
    }

    /// Deletes document `n`. Where it was the only one, a fresh document
    /// takes its place.
    pub fn delete_buffer(&mut self, n: usize)
        requires
            old(self).wf(),
            n < old(self)@.buffers.len(),
        ensures
            final(self).wf(),
            final(self)@ == old(self)@.deleted(n as nat),
    {
        self.buffers.remove(n);
        if self.buffers.len() == 0 {
            self.buffers.push(Buffer::new());
            self.current_buffer_index = 0;
            assert(self@.buffers =~= seq![Document::fresh()]);
        } else {
            if n <= self.current_buffer_index && self.current_buffer_index > 0 {
                self.current_buffer_index -= 1;
            }
            assert(self@.buffers =~= old(self)@.buffers.remove(n as int));
        }
    }

    /// Whether `n` is the number of a document that the user can name:
    /// transient documents are not counted.
    pub fn is_buffer_index_valid(&self, n: usize) -> (valid: bool)
        requires
            self.wf(),
        ensures
            valid == self@.index_valid(n as nat),
    {
        let len = self.buffers.len();
        let mut count: usize = 0;
        let mut i: usize = 0;
        while i < len
            invariant
                i <= len,
                len == self.buffers@.len(),
                count == count_lasting(self@.buffers.take(i as int)),
                count <= i,
            decreases len - i,
        {
            proof {
                let part = self@.buffers.take(i + 1);
                assert(part.drop_last() =~= self@.buffers.take(i as int));
                assert(part.last() == self.buffers@[i as int]@);
            }
            if !self.buffers[i].is_transient {
                count += 1;
            }
            i += 1;
        }
        assert(self@.buffers.take(len as int) =~= self@.buffers);
        n < count
    }
}

} // verus!
