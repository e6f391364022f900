//! The editor: its documents, its prompt, its options and what it shows.

use crate::edit::line::Line;
use crate::io::key_state::KeyState;
use crate::io::parse::{Inst, Parameter, Pending};
use crate::io::redraw::RedrawTask;
use crate::io::status_bar::{StatusBar, StatusBarView};
use crate::state::buffers::{BufferManager, Document, Documents};
use crate::state::cursor::Cursor;
use crate::state::options::Options;
use vstd::prelude::*;

verus! {

/// The editor as contracts see it.
pub struct EditorView {
    /// The documents.
    pub docs: Documents,
    /// The status bar.
    pub status_bar: StatusBarView,
    /// The lines of the prompt, the one being typed first.
    pub prompt: Seq<Seq<char>>,
    /// The line of the prompt that is shown.
    pub prompt_index: nat,
    /// The options.
    pub options: Options,
    /// The modifiers held.
    pub key_state: KeyState,
    /// What the renderer has to draw again.
    pub redraw_task: RedrawTask,
    /// The last instruction executed, for repeating it.
    pub previous_instruction: Option<Inst>,
    /// What the command in progress waits for.
    pub pending: Pending,
    /// The count typed so far for the instruction that is being read.
    pub count: Parameter,
}

impl EditorView {
    /// The invariant: the documents are well-formed and the prompt line
    /// shown exists.
    pub open spec fn wf(self) -> bool {
        &&& self.docs.wf()
        &&& self.prompt_index < self.prompt.len()
    }

    /// The current document.
    pub open spec fn doc(self) -> Document {
        self.docs.doc()
    }

    /// The lines of the current document.
    pub open spec fn lines(self) -> Seq<Seq<char>> {
        self.docs.doc().lines
    }

    /// The current cursor of the current document.
    pub open spec fn cursor(self) -> Cursor {
        self.docs.doc().cursor()
    }

    /// An editor that has just started: one fresh document, an empty
    /// prompt, the default options, nothing in progress.
    pub open spec fn initial() -> EditorView {
        EditorView {
            docs: Documents { buffers: seq![Document::fresh()], current: 0 },
            status_bar: StatusBarView {
                mode: "Normal"@,
                cmd: Seq::<char>::empty(),
                msg: "Welcome to Sodium!"@,
            },
            prompt: seq![Seq::<char>::empty()],
            prompt_index: 0,
            options: Options {
                autoindent: true,
                debug: true,
                highlight: true,
                line_marker: true,
                readonly: false,
                line_numbers: false,
            },
            key_state: KeyState { ctrl: false, alt: false, shift: false },
            redraw_task: RedrawTask::Null,
            previous_instruction: None,
            pending: Pending::Nothing,
            count: Parameter::Null,
        }
    }

    /// The editor with its current document replaced.
    pub open spec fn with_doc(self, doc: Document) -> EditorView {
        EditorView { docs: self.docs.with_doc(doc), ..self }
    }

    /// The editor with its current cursor replaced.
    pub open spec fn with_cursor(self, cursor: Cursor) -> EditorView {
        self.with_doc(self.doc().with_cursor(cursor))
    }

    /// The editor with another message in its status bar.
    pub open spec fn with_msg(self, msg: Seq<char>) -> EditorView {
        EditorView { status_bar: StatusBarView { msg, ..self.status_bar }, ..self }
    }

    /// The editor with another task for the renderer.
    pub open spec fn with_redraw(self, task: RedrawTask) -> EditorView {
        EditorView { redraw_task: task, ..self }
    }
}

/// The views of the lines of a prompt.
pub open spec fn prompt_of(lines: Seq<Line>) -> Seq<Seq<char>> {
    Seq::new(lines.len(), |i: int| lines[i]@)
}

/// The state of the editor. It is handed to every operation by exclusive
/// reference; there is no state beside it.
pub struct Editor {
    /// The documents.
    pub buffers: BufferManager,
    /// The status bar.
    pub status_bar: StatusBar,
    /// The lines of the prompt, the one being typed first.
    pub prompt: Vec<Line>,
    /// The line of the prompt that is shown, usually 0.
    pub prompt_index: usize,
    /// The options.
    pub options: Options,
    /// The modifiers held.
    pub key_state: KeyState,
    /// What the renderer has to draw again.
    pub redraw_task: RedrawTask,
    /// The last instruction executed, for repeating it.
    pub previous_instruction: Option<Inst>,
    /// What the command in progress waits for.
    pub pending: Pending,
    /// The count typed so far for the instruction that is being read.
    pub count: Parameter,
}

impl View for Editor {
    type V = EditorView;

    open spec fn view(&self) -> EditorView {
        EditorView {
            docs: self.buffers@,
            status_bar: self.status_bar@,
            prompt: prompt_of(self.prompt@),
            prompt_index: self.prompt_index as nat,
            options: self.options,
            key_state: self.key_state,
            redraw_task: self.redraw_task,
            previous_instruction: self.previous_instruction,
            pending: self.pending,
            count: self.count,
        }
    }
}

impl Editor {
    /// The invariant of the editor.
    pub open spec fn wf(&self) -> bool {
        &&& self.buffers.wf()
        &&& self@.wf()
    }

    /// An editor that has just started: one fresh document, an empty
    /// prompt, the default options, nothing in progress.
    pub fn new() -> (editor: Editor)
        ensures
            editor.wf(),
            editor@ == EditorView::initial(),
    {
        let mut prompt: Vec<Line> = Vec::new();
        prompt.push(Line::new());
        let editor = Editor {
            buffers: BufferManager::new(),
            status_bar: StatusBar::new(),
            prompt,
            prompt_index: 0,
            options: Options::new(),
            key_state: KeyState::new(),
            redraw_task: RedrawTask::Null,
            previous_instruction: None,
            pending: Pending::Nothing,
            count: Parameter::Null,
        };
        proof {
            editor.buffers.lemma_wf();
            assert(editor@.prompt =~= seq![Seq::<char>::empty()]);
        }
        editor
    }
    /// The current cursor.
    pub fn cursor(&self) -> (cursor: &Cursor)
        requires
            self.wf(),
        ensures
            *cursor == self@.cursor(),
    {
        let buffer = self.buffers.current_buffer_info();
        &buffer.cursors[buffer.current_cursor as usize]
    }

    /// The current cursor, for writing. What the caller leaves there is
    /// the current cursor from then on.
    pub fn cursor_mut(&mut self) -> (cursor: &mut Cursor)
        requires
            old(self).wf(),
        ensures
            *cursor == old(self)@.cursor(),
            final(self)@ == old(self)@.with_cursor(*final(cursor)),
            final(self).wf(),
    {
        proof {
            self.buffers.lemma_wf();
        }
        let buffer = self.buffers.current_buffer_info_mut();
        let index = buffer.current_cursor as usize;
        &mut buffer.cursors[index]
    }

    /// Makes the cursor after the current one the current one; after the
    /// last cursor comes the first.
    pub fn next_cursor(&mut self)
        requires
            old(self).wf(),
        ensures
            final(self).wf(),
            final(self)@ == old(self)@.with_doc(old(self)@.doc().next_cursor()),
    {
        proof {
            self.buffers.lemma_wf();
        }
        let buffer = self.buffers.current_buffer_info_mut();
        let count = buffer.cursors.len();
        let next = buffer.current_cursor as usize + 1;
        buffer.current_cursor = if next >= count {
            0
        } else {
            next as u8
        };
    }

    /// Makes the cursor before the current one the current one; before
    /// the first cursor comes the last.
    pub fn prev_cursor(&mut self)
        requires
            old(self).wf(),
        ensures
            final(self).wf(),
            final(self)@ == old(self)@.with_doc(old(self)@.doc().prev_cursor()),
    {
        proof {
            self.buffers.lemma_wf();
        }
        let buffer = self.buffers.current_buffer_info_mut();
        let count = buffer.cursors.len();
        buffer.current_cursor = if buffer.current_cursor == 0 {
            (count - 1) as u8
        } else {
            buffer.current_cursor - 1
        };
    }
}

} // verus!
