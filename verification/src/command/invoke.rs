//! Carrying out the commands of the prompt.
//!
//! Reading and writing files is the business of the host. A command that
//! needs a file hands the host a request; the host does the work and comes
//! back with what came of it.

use crate::command::prompt::{Command, PromptCommand};
use crate::edit::buffer::{join_lines, lines_or_empty, split_lines, views_of, SplitBuffer};
use crate::edit::line::Line;
use crate::io::file::FileStatus;
use crate::io::redraw::RedrawTask;
use crate::state::buffers::{count_lasting, Buffer, Document, Documents};
use crate::state::editor::{Editor, EditorView};
use crate::state::options::option_named;
use crate::text::{decimal, to_decimal};
use vstd::prelude::*;
use vstd::string::StringExecFns;

verus! {

/// What the editor asks of its host after a command.
#[derive(Debug)]
pub enum Request {
    /// Nothing.
    Nothing,
    /// To read the file of this path and to answer with `Editor::opened`.
    Open(String),
    /// To read the help text and to answer with `Editor::open`.
    Help,
    /// To write the text (the second string) to the file of this path
    /// (the first) and to answer with `Editor::written`.
    Write(String, String),
    /// To end the program.
    Quit,
}

/// A request as contracts see it.
pub enum Asked {
    /// Nothing.
    Nothing,
    /// To read the file of this path.
    Open(Seq<char>),
    /// To read the help text.
    Help,
    /// To write the text (the second sequence) to the file of this path
    /// (the first).
    Write(Seq<char>, Seq<char>),
    /// To end the program.
    Quit,
}

impl View for Request {
    type V = Asked;

    open spec fn view(&self) -> Asked {
        match self {
            Request::Nothing => Asked::Nothing,
            Request::Open(path) => Asked::Open(path@),
            Request::Help => Asked::Help,
            Request::Write(path, text) => Asked::Write(path@, text@),
            Request::Quit => Asked::Quit,
        }
    }
}

/// The title of a document in the list of documents.
pub open spec fn title_or_none(title: Option<Seq<char>>) -> Seq<char> {
    match title {
        Some(t) => t,
        None => "<No Title>"@,
    }
}

/// The line of the list of documents for the document of number `i`.
pub open spec fn listing_entry(i: nat, title: Option<Seq<char>>) -> Seq<char> {
    "b"@ + decimal(i) + "\t\t\t"@ + title_or_none(title)
}

/// The lines of the list of documents that stand for documents: one for
/// each document that is not transient, numbered from zero.
pub open spec fn listing_entries(buffers: Seq<Document>) -> Seq<Seq<char>>
    decreases buffers.len(),
{
    if buffers.len() == 0 {
        Seq::<Seq<char>>::empty()
    } else {
        let rest = listing_entries(buffers.drop_last());
        if buffers.last().is_transient {
            rest
        } else {
            rest.push(listing_entry(rest.len(), buffers.last().title))
        }
    }
}

/// The list of documents: a heading, and a line for each document that is
/// not transient.
pub open spec fn listing(buffers: Seq<Document>) -> Seq<Seq<char>> {
    seq!["Buffers"@, "====================================="@, Seq::<char>::empty()]
        + listing_entries(buffers)
}

/// There are no more lasting documents than documents.
pub proof fn lemma_count_lasting(buffers: Seq<Document>)
    ensures
        count_lasting(buffers) <= buffers.len(),
    decreases buffers.len(),
{
    if buffers.len() > 0 {
        lemma_count_lasting(buffers.drop_last());
    }
}

impl EditorView {
    /// The editor with other documents.
    pub open spec fn with_docs(self, docs: Documents) -> EditorView {
        EditorView { docs, ..self }
    }

    /// The editor after the option that `name` names was set to `value`:
    /// with the option changed and a message that says so, or, where
    /// `name` names no option, with a message that says that.
    pub open spec fn option_assigned(self, name: Seq<char>, value: bool) -> EditorView {
        if option_named(name).is_some() {
            EditorView { options: self.options.assigned(name, value), ..self }.complaining(
                if value {
                    "Option set: "@ + name
                } else {
                    "Option unset: "@ + name
                },
            )
        } else {
            self.complaining("Option does not exist: "@ + name)
        }
    }

    /// The editor after the option that `name` names was toggled.
    pub open spec fn option_toggled(self, name: Seq<char>) -> EditorView {
        if option_named(name).is_some() {
            EditorView { options: self.options.toggled(name), ..self }.complaining(
                "Option toggled: "@ + name,
            )
        } else {
            self.complaining("Option does not exist: "@ + name)
        }
    }

    /// The editor after it was asked for the option that `name` names.
    pub open spec fn option_shown(self, name: Seq<char>) -> EditorView {
        self.complaining(
            match self.options.spec_get(name) {
                Some(true) => "Option set: "@ + name,
                Some(false) => "Option unset: "@ + name,
                None => "Option does not exist: "@ + name,
            },
        )
    }

    /// The editor with one more document, which is the current one. A
    /// transient document that was the current one is gone.
    pub open spec fn with_new_document(self, doc: Document) -> EditorView {
        self.with_docs(self.docs.added(doc).switched(self.docs.buffers.len()))
    }

    /// The editor showing the list of its documents in a new, transient
    /// document.
    pub open spec fn listing_buffers(self) -> EditorView {
        self.with_new_document(
            Document {
                lines: listing(self.docs.buffers),
                title: Some("<Buffers>"@),
                is_transient: true,
                ..Document::fresh()
            },
        ).with_redraw(RedrawTask::Full)
    }

    /// The editor after the switch to the document of number `n`, or with
    /// a message why there was none.
    pub open spec fn switched_to_buffer(self, n: usize) -> EditorView {
        if !self.docs.index_valid(n as nat) {
            self.with_msg("Invalid buffer #"@ + decimal(n as nat))
        } else if self.docs.current == n {
            self.with_msg("Already in buffer #"@ + decimal(n as nat))
        } else {
            self.with_docs(self.docs.switched(n as nat)).with_redraw(RedrawTask::Full).with_msg(
                "Switched to buffer #"@ + decimal(n as nat),
            )
        }
    }

    /// The editor with a new, empty document as the current one.
    pub open spec fn buffer_created(self) -> EditorView {
        self.with_new_document(Document::fresh()).with_redraw(RedrawTask::Full).with_msg(
            "Switched to buffer#"@ + decimal(self.docs.buffers.len()),
        )
    }

    /// The editor without its current document.
    pub open spec fn buffer_deleted(self) -> EditorView {
        self.with_docs(self.docs.deleted(self.docs.current)).with_redraw(RedrawTask::Full)
    }

    /// The editor with `path` as the title of its current document.
    pub open spec fn titled(self, path: Seq<char>) -> EditorView {
        self.with_doc(Document { title: Some(path), ..self.doc() })
    }

    /// The editor after it was asked to write its current document to
    /// `path`: a read-only editor refuses; else the document has the path
    /// as its title, and an empty path is complained of.
    pub open spec fn writing(self, path: Seq<char>) -> EditorView {
        if self.options.readonly {
            self.with_msg("File "@ + path + " is opened in readonly mode"@)
        } else if path.len() == 0 {
            self.titled(path).with_msg("Couldn't write "@ + path)
        } else {
            self.titled(path)
        }
    }

    /// The editor after the command `c` of the prompt.
    pub open spec fn invoked(self, c: Command) -> EditorView {
        match c {
            Command::SetOption(name) => self.option_assigned(name, true),
            Command::Unset(name) => self.option_assigned(name, false),
            Command::Toggle(name) => self.option_toggled(name),
            Command::Get(name) => self.option_shown(name),
            Command::Open(_) => self,
            Command::Write(path) => self.writing(path),
            Command::ListBuffers => self.listing_buffers(),
            Command::CreateBuffer => self.buffer_created(),
            Command::DeleteBuffer => self.buffer_deleted(),
            Command::SwitchToBuffer(n) => self.switched_to_buffer(n),
            Command::Help => self,
            Command::Quit => self,
        }.hinted()
    }

    /// What the command `c` of the prompt asks of the host.
    pub open spec fn asked(self, c: Command) -> Asked {
        match c {
            Command::Open(path) => Asked::Open(path),
            Command::Write(path) => if !self.options.readonly && path.len() > 0 {
                Asked::Write(path, join_lines(self.lines()))
            } else {
                Asked::Nothing
            },
            Command::Help => Asked::Help,
            Command::Quit => Asked::Quit,
            _ => Asked::Nothing,
        }
    }

    /// The editor with the text of a file in a new document, which has the
    /// path of the file as its title and is the current one.
    pub open spec fn with_file(self, path: Seq<char>, text: Seq<char>) -> EditorView {
        self.with_new_document(
            Document {
                lines: lines_or_empty(split_lines(text)),
                title: Some(path),
                ..Document::fresh()
            },
        ).hinted()
    }

    /// Whether the current document is one empty line.
    pub open spec fn is_blank(self) -> bool {
        self.lines().len() == 1 && self.lines()[0].len() == 0
    }

    /// The editor after the host answered the prompt's request to open
    /// `path`, with the text of the file or without one: the file is in a
    /// new document, or a message says that it could not be opened. A
    /// document that was blank when the answer came goes.
    pub open spec fn file_opened(self, path: Seq<char>, text: Option<Seq<char>>) -> EditorView {
        let loaded = match text {
            Some(t) => self.with_file(path, t).with_msg("File "@ + path + " opened"@),
            None => self.with_msg("File "@ + path + " could not be opened"@),
        };
        if self.is_blank() {
            loaded.with_docs(loaded.docs.deleted(self.docs.current)).hinted()
        } else {
            loaded.hinted()
        }
    }

    /// The editor after the host said how writing to `path` went.
    pub open spec fn file_written(self, path: Seq<char>, status: FileStatus) -> EditorView {
        self.with_msg(
            match status {
                FileStatus::NotFound => "File "@ + path + " could not be opened"@,
                FileStatus::Done => "File "@ + path + " written"@,
                FileStatus::Other => "Couldn't write "@ + path,
            },
        )
    }
}

/// The text `a` followed by the text `b`.
pub fn joined(a: &str, b: &str) -> (text: String)
    ensures
        text@ == a@ + b@,
{
    let mut text = String::from_str(a);
    text.append(b);
    text
}

/// The texts `a`, `b` and `c`, one after the other.
pub fn joined3(a: &str, b: &str, c: &str) -> (text: String)
    ensures
        text@ == a@ + b@ + c@,
{
    let mut text = String::from_str(a);
    text.append(b);
    text.append(c);
    text
}

impl Editor {
    /// Sets the option that `name` names to `value`, and says so; says
    /// that there is no such option where there is none.
    pub fn assign_option(&mut self, name: &str, value: bool)
        requires
            old(self).wf(),
        ensures
            final(self).wf(),
            final(self)@ == old(self)@.option_assigned(name@, value),
    {
        let done = if value {
            self.options.set(name)
        } else {
            self.options.unset(name)
        };
        let msg = match done {
            Ok(()) => if value {
                joined("Option set: ", name)
            } else {
                joined("Option unset: ", name)
            },
            Err(()) => joined("Option does not exist: ", name),
        };
        self.complain(msg);
    }

    /// Toggles the option that `name` names, and says so; says that there
    /// is no such option where there is none.
    pub fn toggle_option(&mut self, name: &str)
        requires
            old(self).wf(),
        ensures
            final(self).wf(),
            final(self)@ == old(self)@.option_toggled(name@),
    {
        let msg = match self.options.toggle(name) {
            Ok(()) => joined("Option toggled: ", name),
            Err(()) => joined("Option does not exist: ", name),
        };
        self.complain(msg);
    }

    /// Says whether the option that `name` names is set.
    pub fn show_option(&mut self, name: &str)
        requires
            old(self).wf(),
        ensures
            final(self).wf(),
            final(self)@ == old(self)@.option_shown(name@),
    {
        let msg = match self.options.get(name) {
            Some(true) => joined("Option set: ", name),
            Some(false) => joined("Option unset: ", name),
            None => joined("Option does not exist: ", name),
        };
        self.complain(msg);
    }

    /// Adds the document and makes it the current one. A transient
    /// document that was the current one goes.
    pub fn add_document(&mut self, buffer: Buffer)
        requires
            old(self).wf(),
            buffer.wf(),
        ensures
            final(self).wf(),
            final(self)@ == old(self)@.with_new_document(buffer@),
    {
        let index = self.buffers.new_buffer(buffer);
        self.buffers.switch_to(index);
        proof {
            self.buffers.lemma_wf();
        }
    }

    /// The lines of the list of documents.
    pub fn get_buffers_description(&self) -> (lines: Vec<Line>)
        requires
            self.wf(),
        ensures
            views_of(lines@) == listing(self@.docs.buffers),
    {
        let mut lines: Vec<Line> = Vec::new();
        lines.push(Line::from_str("Buffers"));
        lines.push(Line::from_str("====================================="));
        lines.push(Line::new());
        let ghost heading = views_of(lines@);
        assert(heading =~= seq![
            "Buffers"@,
            "====================================="@,
            Seq::<char>::empty(),
        ]);
        let buffers = self.buffers.iter();
        let ghost docs = self@.docs.buffers;
        let n = buffers.len();
        let mut shown: usize = 0;
        let mut i: usize = 0;
        while i < n
            invariant
                i <= n,
                n == buffers@.len(),
                n == docs.len(),
                forall|k: int| 0 <= k < n ==> (#[trigger] buffers@[k])@ == docs[k],
                shown <= i,
                shown == listing_entries(docs.take(i as int)).len(),
                views_of(lines@) == heading + listing_entries(docs.take(i as int)),
            decreases n - i,
        {
            let buffer = &buffers[i];
            proof {
                let part = docs.take(i + 1);
                assert(part.drop_last() =~= docs.take(i as int));
                assert(part.last() == buffer@);
            }
            if !buffer.is_transient {
                let mut entry = Line::from_str("b");
                entry.push_slice(&to_decimal(shown));
                entry.push_slice(&Line::from_str("\t\t\t"));
                match &buffer.title {
                    Some(title) => entry.push_slice(&Line::from_str(title.as_str())),
                    None => entry.push_slice(&Line::from_str("<No Title>")),
                }
                let ghost before = views_of(lines@);
                let ghost text = entry@;
                lines.push(entry);
                assert(views_of(lines@) =~= before.push(text));
                assert(heading + listing_entries(docs.take(i as int)).push(text) =~= (heading
                    + listing_entries(docs.take(i as int))).push(text));
                shown += 1;
            }
            i += 1;
        }
        assert(docs.take(n as int) =~= docs);
        lines
    }

    /// Shows the list of the documents in a new, transient document.
    pub fn list_buffers(&mut self)
        requires
            old(self).wf(),
        ensures
            final(self).wf(),
            final(self)@ == old(self)@.listing_buffers(),
    {
        let description = self.get_buffers_description();
        let mut buffer = Buffer::from(SplitBuffer::from_lines(description.as_slice()));
        buffer.title = Some(String::from_str("<Buffers>"));
        buffer.is_transient = true;
        self.add_document(buffer);
        self.redraw_task = RedrawTask::Full;
    }

    /// Switches to the document of number `n`; says so, or why not.
    pub fn switch_to_buffer(&mut self, n: usize)
        requires
            old(self).wf(),
        ensures
            final(self).wf(),
            final(self)@ == old(self)@.switched_to_buffer(n),
    {
        let number = to_decimal(n).to_string();
        if !self.buffers.is_buffer_index_valid(n) {
            self.status_bar.msg = joined("Invalid buffer #", number.as_str());
        } else if self.buffers.current_buffer_index() == n {
            self.status_bar.msg = joined("Already in buffer #", number.as_str());
        } else {
            proof {
                lemma_count_lasting(self@.docs.buffers);
            }
            self.buffers.switch_to(n);
            proof {
                self.buffers.lemma_wf();
            }
            self.redraw_task = RedrawTask::Full;
            self.status_bar.msg = joined("Switched to buffer #", number.as_str());
        }
    }

    /// Makes a new, empty document the current one.
    pub fn create_buffer(&mut self)
        requires
            old(self).wf(),
        ensures
            final(self).wf(),
            final(self)@ == old(self)@.buffer_created(),
    {
        let number = to_decimal(self.buffers.len()).to_string();
        self.add_document(Buffer::new());
        self.redraw_task = RedrawTask::Full;
        self.status_bar.msg = joined("Switched to buffer#", number.as_str());
    }

    /// Deletes the current document.
    pub fn delete_current_buffer(&mut self)
        requires
            old(self).wf(),
        ensures
            final(self).wf(),
            final(self)@ == old(self)@.buffer_deleted(),
    {
        let index = self.buffers.current_buffer_index();
        self.buffers.delete_buffer(index);
        proof {
            self.buffers.lemma_wf();
        }
        self.redraw_task = RedrawTask::Full;
    }

    /// Gets the current document ready to be written to `path`: the path
    /// becomes its title, and the text to write is handed back. Without a
    /// path there is nothing to write.
    pub fn write(&mut self, path: &str) -> (text: Option<String>)
        requires
            old(self).wf(),
        ensures
            final(self).wf(),
            final(self)@ == old(self)@.titled(path@),
            path@.len() == 0 ==> text.is_none(),
            path@.len() > 0 ==> text.is_some() && text.unwrap()@ == join_lines(old(self)@.lines()),
    {
        self.buffers.current_buffer_info_mut().title = Some(String::from_str(path));
        if path.is_empty() {
            None
        } else {
            Some(self.buffers.current_buffer().to_string())
        }
    }

    /// Starts writing the current document to `path`, unless the editor
    /// is read-only or the path is empty; hands back the request for the
    /// host.
    pub fn start_writing(&mut self, path: &str) -> (request: Request)
        requires
            old(self).wf(),
        ensures
            final(self).wf(),
            final(self)@ == old(self)@.writing(path@),
            request@ == old(self)@.asked(Command::Write(path@)),
    {
        if self.options.readonly {
            self.status_bar.msg = joined3("File ", path, " is opened in readonly mode");
            Request::Nothing
        } else {
            match self.write(path) {
                Some(text) => Request::Write(String::from_str(path), text),
                None => {
                    self.status_bar.msg = joined("Couldn't write ", path);
                    Request::Nothing
                },
            }
        }
    }

    /// Carries out a command of the prompt, and hands back what the host
    /// has to do for it: to read a file, to write one, or to end the
    /// program. The storage is told where the cursor is afterwards.
    pub fn invoke(&mut self, cmd: PromptCommand) -> (request: Request)
        requires
            old(self).wf(),
        ensures
            final(self).wf(),
            final(self)@ == old(self)@.invoked(cmd@),
            request@ == old(self)@.asked(cmd@),
    {
        let request = match cmd {
            PromptCommand::SetOption { option } => {
                self.assign_option(option.as_str(), true);
                Request::Nothing
            },
            PromptCommand::Unset { option } => {
                self.assign_option(option.as_str(), false);
                Request::Nothing
            },
            PromptCommand::Toggle { option } => {
                self.toggle_option(option.as_str());
                Request::Nothing
            },
            PromptCommand::Get { option } => {
                self.show_option(option.as_str());
                Request::Nothing
            },
            PromptCommand::Open { path } => Request::Open(path),
            PromptCommand::Write { path } => self.start_writing(path.as_str()),
            PromptCommand::ListBuffers => {
                self.list_buffers();
                Request::Nothing
            },
            PromptCommand::CreateBuffer => {
                self.create_buffer();
                Request::Nothing
            },
            PromptCommand::DeleteBuffer => {
                self.delete_current_buffer();
                Request::Nothing
            },
            PromptCommand::SwitchToBuffer { buffer_index } => {
                self.switch_to_buffer(buffer_index);
                Request::Nothing
            },
            PromptCommand::Help => Request::Help,
            PromptCommand::Quit => Request::Quit,
        };
        self.hint();
        request
    }

    /// Takes the text of the file `path` into a new document, which has
    /// the path as its title and becomes the current one. Without a text
    /// (the file could not be read) nothing changes.
    pub fn open(&mut self, path: &str, content: Option<&str>) -> (status: FileStatus)
        requires
            old(self).wf(),
        ensures
            final(self).wf(),
            match content {
                Some(text) => status == FileStatus::Done && final(self)@ == old(self)@.with_file(
                    path@,
                    text@,
                ),
                None => status == FileStatus::NotFound && final(self)@ == old(self)@,
            },
    {
        match content {
            Some(text) => {
                let mut buffer = Buffer::from(SplitBuffer::from_str(text));
                buffer.title = Some(String::from_str(path));
                self.add_document(buffer);
                self.hint();
                FileStatus::Done
            },
            None => FileStatus::NotFound,
        }
    }

    /// Whether the current document is one empty line.
    pub fn is_blank(&self) -> (blank: bool)
        requires
            self.wf(),
        ensures
            blank == self@.is_blank(),
    {
        let buffer = self.buffers.current_buffer();
        buffer.len() == 1 && buffer.get_line(0).unwrap().len() == 0
    }

    /// Takes the host's answer to the prompt's request to open `path`:
    /// the text of the file, or none where it could not be read. The file
    /// goes into a new document, or a message says that it could not be
    /// opened. A document that was blank when the answer came goes.
    pub fn opened(&mut self, path: &str, content: Option<&str>)
        requires
            old(self).wf(),
        ensures
            final(self).wf(),
            final(self)@ == old(self)@.file_opened(
                path@,
                match content {
                    Some(text) => Some(text@),
                    None => None,
                },
            ),
    {
        let blank = self.is_blank();
        let index = self.buffers.current_buffer_index();
        let ghost count = self@.docs.buffers.len();
        match self.open(path, content) {
            FileStatus::Done => {
                self.status_bar.msg = joined3("File ", path, " opened");
            },
            _ => {
                self.status_bar.msg = joined3("File ", path, " could not be opened");
            },
        }
        if blank {
            assert(self@.docs.buffers.len() >= count);
            self.buffers.delete_buffer(index);
            proof {
                self.buffers.lemma_wf();
            }
        }
        self.hint();
    }

    /// Takes the host's word on how writing to `path` went, and tells the
    /// user.
    pub fn written(&mut self, path: &str, status: FileStatus)
        requires
            old(self).wf(),
        ensures
            final(self).wf(),
            final(self)@ == old(self)@.file_written(path@, status),
    {
        self.status_bar.msg = match status {
            FileStatus::NotFound => joined3("File ", path, " could not be opened"),
            FileStatus::Done => joined3("File ", path, " written"),
            FileStatus::Other => joined("Couldn't write ", path),
        };
    }
}

} // verus!
