//! Executing instructions.
//!
//! An instruction is a key with the count typed before it. What it does
//! depends on the mode of the current cursor and on whether a command is
//! waiting for more input: a motion for `d`, a character for `r`. The
//! editor never waits itself. A command that needs more input leaves a
//! note of what it waits for, and the next instruction goes to it.

use crate::caret::motion::Motion;
use crate::caret::position::{signed_pos, to_signed_pos};
use crate::command::invoke::{Asked, Request};
use crate::command::normal::{insert_mode, normal_mode};
use crate::command::prompt::{parsed, PromptCommand};
use crate::edit::insert::{InsertMode, InsertOptions};
use crate::edit::line::Line;
use crate::io::key::Key;
use crate::io::parse::{Inst, Operator, Pending};
use crate::io::redraw::{redraw_line, RedrawTask};
use crate::state::editor::{prompt_of, Editor, EditorView};
use crate::state::mode::{CommandMode, Mode, PrimitiveMode};
use core::ops::Range;
use vstd::prelude::*;
use vstd::string::StringExecFns;

verus! {

/// The lines of the prompt after the line at `index` was entered: it is
/// the newest line, and an empty line is put in front of it to type the
/// next command on, unless it is empty itself.
pub open spec fn prompt_filed(prompt: Seq<Seq<char>>, index: int) -> Seq<Seq<char>> {
    let text = prompt[index];
    let kept = if index != 0 {
        prompt.update(0, text)
    } else {
        prompt
    };
    if text.len() != 0 {
        kept.insert(0, Seq::<char>::empty())
    } else {
        kept
    }
}

impl EditorView {
    /// The line of the prompt that is shown.
    pub open spec fn prompt_line(self) -> Seq<char> {
        self.prompt[self.prompt_index as int]
    }

    /// The editor with another line in the place of the shown line of the
    /// prompt, and the renderer asked to show the status bar.
    pub open spec fn with_prompt_line(self, line: Seq<char>) -> EditorView {
        EditorView { prompt: self.prompt.update(self.prompt_index as int, line), ..self }.with_redraw(
            RedrawTask::StatusBar,
        )
    }

    /// The editor showing another line of the prompt.
    pub open spec fn with_prompt_index(self, index: nat) -> EditorView {
        EditorView { prompt_index: index, ..self }.with_redraw(RedrawTask::StatusBar)
    }

    /// The editor after the prompt was left without entering its line: a
    /// new line is put in front, and the mode is normal mode.
    pub open spec fn left_prompt(self) -> EditorView {
        EditorView { prompt: self.prompt.insert(0, Seq::<char>::empty()), ..self }.in_mode(
            normal_mode(),
        )
    }

    /// The editor after insert mode was left: the cursor is one column
    /// further left, and the mode is normal mode.
    pub open spec fn left_insert(self) -> EditorView {
        self.moved_to(self.doc().left(1)).in_mode(normal_mode())
    }

    /// The editor after the line of the prompt was entered: the mode is
    /// normal mode, the command that the line stands for is carried out
    /// (or the line is complained of), and the line is filed.
    pub open spec fn entered(self) -> EditorView {
        let text = self.prompt_line();
        let normal = self.in_mode(normal_mode());
        let done = match parsed(text) {
            Some(c) => normal.invoked(c),
            None => normal.with_msg("Unknown command: "@ + text),
        };
        EditorView {
            prompt: prompt_filed(self.prompt, self.prompt_index as int),
            prompt_index: 0,
            ..done
        }
    }

    /// What entering the line of the prompt asks of the host.
    pub open spec fn entered_asked(self) -> Asked {
        match parsed(self.prompt_line()) {
            Some(c) => self.in_mode(normal_mode()).asked(c),
            None => Asked::Nothing,
        }
    }

    /// The editor after the key `key` was typed in prompt mode.
    pub open spec fn prompt_key(self, key: Key) -> EditorView {
        match key {
            Key::Char(c) => if c == '\n' {
                self.entered()
            } else {
                self.with_prompt_line(self.prompt_line().push(c))
            },
            Key::Backspace => if self.prompt_line().len() > 0 {
                self.with_prompt_line(self.prompt_line().drop_last())
            } else {
                self.with_redraw(RedrawTask::StatusBar)
            },
            Key::Up => if self.prompt_index + 1 < self.prompt.len() {
                self.with_prompt_index(self.prompt_index + 1)
            } else {
                self.with_redraw(RedrawTask::StatusBar)
            },
            Key::Down => if self.prompt_index > 0 {
                self.with_prompt_index((self.prompt_index - 1) as nat)
            } else {
                self.with_redraw(RedrawTask::StatusBar)
            },
            _ => self.complaining("Unknown command"@),
        }
    }

    /// The editor after a command that took a motion was given the place
    /// `target`: the cursor is there, or the document is scrolled there,
    /// or the text up to there is removed.
    pub open spec fn arrived(self, op: Operator, target: (usize, usize)) -> EditorView {
        match op {
            Operator::Jump(report) => self.jumped(target, report),
            Operator::Scroll => self.scrolled_to(target),
            Operator::Delete => self.range_removed(signed_pos(target)),
            Operator::Change => self.range_removed(signed_pos(target)).in_mode(insert_mode()),
        }
    }

    /// The editor after the text between the cursor and `target` was
    /// removed, and insert mode entered where `change` is set.
    pub open spec fn removed_to(self, change: bool, target: (isize, isize)) -> EditorView {
        if change {
            self.range_removed(target).in_mode(insert_mode())
        } else {
            self.range_removed(target)
        }
    }

    /// The editor after the instruction `inst` was given to a command
    /// that waits for a motion. The quit key gives the command up. `d`
    /// given to `d` removes the row of the cursor. A motion key finishes
    /// the command, or makes it wait on: for a character to look for, or
    /// for the instruction that names the motion. Any other key gives the
    /// command up with a message.
    pub open spec fn continued_motion(self, op: Operator, inst: Inst) -> EditorView {
        let idle = self.awaiting(Pending::Nothing);
        if inst.1.key == Key::Quit {
            idle
        } else if op == Operator::Delete && inst.1.key == Key::Char('d') {
            idle.row_removed()
        } else if op == Operator::Delete || op == Operator::Change {
            match self.motion_unbounded(inst) {
                Motion::To(t) => idle.removed_to(op == Operator::Change, t),
                Motion::Nowhere => idle.after_motion(inst),
                Motion::Find(forward, n) => self.awaiting(Pending::Find(forward, n, op)),
                Motion::Next => self.awaiting(Pending::Motion(op)),
            }
        } else {
            match self.motion(inst) {
                Motion::To(t) => idle.arrived(op, t),
                Motion::Nowhere => idle.after_motion(inst),
                Motion::Find(forward, n) => self.awaiting(Pending::Find(forward, n, op)),
                Motion::Next => self.awaiting(Pending::Motion(op)),
            }
        }
    }

    /// The editor after the instruction `inst` was given to a command
    /// that waits for the character to look for. A character finishes the
    /// command: where the line has the occurrence asked for, the command
    /// acts on that place. The quit key gives the command up. Any other
    /// key is passed over.
    pub open spec fn continued_find(
        self,
        forward: bool,
        n: usize,
        op: Operator,
        inst: Inst,
    ) -> EditorView {
        let idle = self.awaiting(Pending::Nothing);
        match inst.1.key {
            Key::Char(c) => {
                let found = if forward {
                    self.doc().next_ocur(c, n)
                } else {
                    self.doc().previous_ocur(c, n)
                };
                match found {
                    Some(x) => idle.arrived(op, (x, self.pos().1)),
                    None => idle,
                }
            },
            Key::Quit => idle,
            _ => self,
        }
    }

    /// The editor after the instruction `inst` was given to the command
    /// that waits for the character to put in the place of the one under
    /// the cursor.
    pub open spec fn continued_replace(self, inst: Inst) -> EditorView {
        let idle = self.awaiting(Pending::Nothing);
        match inst.1.key {
            Key::Char(c) => idle.with_doc(self.doc().char_replaced(c)).with_redraw(
                redraw_line(self.pos().1),
            ),
            Key::Quit => idle,
            _ => self,
        }
    }

    /// Whether the instruction is the space key with shift held.
    pub open spec fn is_shift_space(inst: Inst) -> bool {
        inst.1.key == Key::Char(' ') && inst.1.shift
    }

    /// Whether the instruction leaves insert mode or the prompt: the
    /// escape key, or the space key with shift held.
    pub open spec fn is_leave(inst: Inst) -> bool {
        inst.1.key == Key::Escape || Self::is_shift_space(inst)
    }

    /// The editor after the instruction `inst`, where no command waits
    /// for input and repeating is left aside. Leaving a mode comes first,
    /// then the keys with alt held: space goes to the next cursor, any
    /// other key is taken as a motion to jump along. Everything else
    /// goes by the mode of the cursor.
    pub open spec fn dispatched(self, inst: Inst) -> EditorView {
        let key = inst.1.key;
        match self.mode() {
            Mode::Primitive(PrimitiveMode::Prompt) => if Self::is_leave(inst) {
                self.left_prompt()
            } else if key == Key::Char(' ') && inst.1.alt {
                self.with_doc(self.doc().next_cursor())
            } else if inst.1.alt {
                self.continued_motion(Operator::Jump(false), inst)
            } else {
                self.prompt_key(key)
            },
            Mode::Primitive(PrimitiveMode::Insert(opts)) => if Self::is_leave(inst) {
                self.left_insert()
            } else if key == Key::Char(' ') && inst.1.alt {
                self.with_doc(self.doc().next_cursor())
            } else if inst.1.alt {
                self.continued_motion(Operator::Jump(false), inst)
            } else {
                self.inserted(key, opts)
            },
            Mode::Command(CommandMode::Normal) => if Self::is_shift_space(inst) {
                self
            } else if key == Key::Char(' ') && inst.1.alt {
                self.with_doc(self.doc().next_cursor())
            } else if inst.1.alt {
                self.continued_motion(Operator::Jump(false), inst)
            } else {
                self.normal_command(inst.0, key)
            },
        }
    }

    /// What the instruction `inst` asks of the host, where no command
    /// waits for input: entering the line of the prompt may ask for a
    /// file.
    pub open spec fn dispatched_asked(self, inst: Inst) -> Asked {
        if self.mode() == (Mode::Primitive(PrimitiveMode::Prompt)) && !Self::is_leave(inst)
            && !inst.1.alt && inst.1.key == Key::Char('\n') {
            self.entered_asked()
        } else {
            Asked::Nothing
        }
    }

    /// Whether the instruction asks to repeat the last one: `.` in normal
    /// mode, without shift or alt, while no command waits for input.
    pub open spec fn is_repeat(self, inst: Inst) -> bool {
        self.pending == Pending::Nothing && self.mode() == normal_mode() && inst.1.key
            == Key::Char('.') && !inst.1.alt
    }

    /// The editor after the instruction `inst`.
    ///
    /// A command that waits for input takes the instruction as that
    /// input. Else `.` in normal mode carries out the last instruction
    /// once more, and any other instruction is carried out and kept as the
    /// last one.
    pub open spec fn executed(self, inst: Inst) -> EditorView {
        match self.pending {
            Pending::Nothing => if self.is_repeat(inst) {
                match self.previous_instruction {
                    Some(last) => self.dispatched(last),
                    None => self.complaining("No previous command"@),
                }
            } else {
                EditorView { previous_instruction: Some(inst), ..self.dispatched(inst) }
            },
            Pending::Motion(op) => self.continued_motion(op, inst),
            Pending::Replace => self.continued_replace(inst),
            Pending::Find(forward, n, op) => self.continued_find(forward, n, op, inst),
        }
    }

    /// What the instruction `inst` asks of the host.
    pub open spec fn executed_asked(self, inst: Inst) -> Asked {
        match self.pending {
            Pending::Nothing => if self.is_repeat(inst) {
                match self.previous_instruction {
                    Some(last) => self.dispatched_asked(last),
                    None => Asked::Nothing,
                }
            } else {
                self.dispatched_asked(inst)
            },
            _ => Asked::Nothing,
        }
    }
}

impl Editor {
    /// Leaves the prompt without entering its line.
    pub fn leave_prompt(&mut self)
        requires
            old(self).wf(),
        ensures
            final(self).wf(),
            final(self)@ == old(self)@.left_prompt(),
    {
        self.prompt.insert(0, Line::new());
        assert(prompt_of(self.prompt@) =~= old(self)@.prompt.insert(0, Seq::<char>::empty()));
        self.set_mode(Mode::Command(CommandMode::Normal));
    }

    /// Leaves insert mode: the cursor goes one column left.
    pub fn leave_insert(&mut self)
        requires
            old(self).wf(),
        ensures
            final(self).wf(),
            final(self)@ == old(self)@.left_insert(),
    {
        let left = self.left(1);
        self.goto(left);
        self.set_mode(Mode::Command(CommandMode::Normal));
    }

    /// Files the line of the prompt that was entered: it becomes the
    /// newest line, and an empty line is put in front of it to type the
    /// next command on, unless it is empty itself.
    pub fn file_prompt(&mut self)
        requires
            old(self).wf(),
        ensures
            final(self).wf(),
            final(self)@ == (EditorView {
                prompt: prompt_filed(old(self)@.prompt, old(self)@.prompt_index as int),
                prompt_index: 0,
                ..old(self)@
            }),
    {
        let text = self.prompt[self.prompt_index].clone();
        let empty = text.is_empty();
        if self.prompt_index != 0 {
            self.prompt[0] = text;
        }
        if !empty {
            self.prompt.insert(0, Line::new());
        }
        self.prompt_index = 0;
        assert(prompt_of(self.prompt@) =~= prompt_filed(
            old(self)@.prompt,
            old(self)@.prompt_index as int,
        ));
    }

    /// Enters the line of the prompt: carries out the command that it
    /// stands for, or complains of it, and files it.
    pub fn enter_prompt(&mut self) -> (request: Request)
        requires
            old(self).wf(),
        ensures
            final(self).wf(),
            final(self)@ == old(self)@.entered(),
            request@ == old(self)@.entered_asked(),
    {
        let text = self.prompt[self.prompt_index].to_string();
        self.set_mode(Mode::Command(CommandMode::Normal));
        let request = match PromptCommand::parse(text.as_str()) {
            Some(cmd) => self.invoke(cmd),
            None => {
                let mut msg = String::from_str("Unknown command: ");
                msg.append(text.as_str());
                self.status_bar.msg = msg;
                Request::Nothing
            },
        };
        self.file_prompt();
        request
    }

    /// Takes the key `key` as typed in prompt mode: a character goes
    /// onto the line, backspace takes one off, the arrows up and down show
    /// older and newer lines, and the line feed enters the line.
    pub fn prompt_key(&mut self, key: Key) -> (request: Request)
        requires
            old(self).wf(),
        ensures
            final(self).wf(),
            final(self)@ == old(self)@.prompt_key(key),
            request@ == if key == Key::Char('\n') {
                old(self)@.entered_asked()
            } else {
                Asked::Nothing
            },
    {
        let ghost prompt = self@.prompt;
        let ghost index = self.prompt_index as int;
        match key {
            Key::Char(c) => {
                if c == '\n' {
                    return self.enter_prompt();
                }
                self.prompt[self.prompt_index].push(c);
                assert(prompt_of(self.prompt@) =~= prompt.update(index, prompt[index].push(c)));
                self.redraw_task = RedrawTask::StatusBar;
            },
            Key::Backspace => {
                let len = self.prompt[self.prompt_index].len();
                if len > 0 {
                    self.prompt[self.prompt_index].remove(len - 1);
                    assert(prompt[index].remove(len - 1) =~= prompt[index].drop_last());
                    assert(prompt_of(self.prompt@) =~= prompt.update(
                        index,
                        prompt[index].drop_last(),
                    ));
                }
                self.redraw_task = RedrawTask::StatusBar;
            },
            Key::Up => {
                if self.prompt_index < self.prompt.len() - 1 {
                    self.prompt_index += 1;
                }
                self.redraw_task = RedrawTask::StatusBar;
            },
            Key::Down => {
                if self.prompt_index > 0 {
                    self.prompt_index -= 1;
                }
                self.redraw_task = RedrawTask::StatusBar;
            },
            _ => {
                self.complain(String::from_str("Unknown command"));
            },
        }
        Request::Nothing
    }

    /// Scrolls to the row of `target` and puts the cursor at `target`.
    pub fn scroll_and_go(&mut self, target: (usize, usize))
        requires
            old(self).wf(),
        ensures
            final(self).wf(),
            final(self)@ == old(self)@.scrolled_to(target),
    {
        self.buffers.current_buffer_info_mut().scroll_y = target.1;
        self.goto(target);
        self.redraw_task = RedrawTask::Full;
        assert(self@.docs.buffers =~= old(self)@.scrolled_to(target).docs.buffers);
    }

    /// Removes the text between the cursor and `target`, and enters
    /// insert mode where `change` is set.
    pub fn remove_to(&mut self, change: bool, target: (isize, isize))
        requires
            old(self).wf(),
        ensures
            final(self).wf(),
            final(self)@ == old(self)@.removed_to(change, target),
    {
        self.remove_rb(target);
        if change {
            self.set_mode(
                Mode::Primitive(PrimitiveMode::Insert(InsertOptions { mode: InsertMode::Insert })),
            );
        }
    }

    /// Finishes a command that took a motion, with the place `target`
    /// that the motion named.
    pub fn arrive(&mut self, op: Operator, target: (usize, usize))
        requires
            old(self).wf(),
        ensures
            final(self).wf(),
            final(self)@ == old(self)@.arrived(op, target),
    {
        match op {
            Operator::Jump(report) => self.jump(target, report),
            Operator::Scroll => self.scroll_and_go(target),
            Operator::Delete => self.remove_to(false, to_signed_pos(target)),
            Operator::Change => self.remove_to(true, to_signed_pos(target)),
        }
    }

    /// Gives the instruction `inst` to a command that waits for a motion.
    pub fn continue_motion(&mut self, op: Operator, inst: Inst)
        requires
            old(self).wf(),
        ensures
            final(self).wf(),
            final(self)@ == old(self)@.continued_motion(op, inst),
    {
        match inst.1.key {
            Key::Quit => {
                self.await_input(Pending::Nothing);
                return ;
            },
            Key::Char(c) => {
                if c == 'd' {
                    if let Operator::Delete = op {
                        self.await_input(Pending::Nothing);
                        self.remove_row();
                        return ;
                    }
                }
            },
            _ => {},
        }
        let removing = match op {
            Operator::Delete => true,
            Operator::Change => true,
            _ => false,
        };
        if removing {
            let change = match op {
                Operator::Change => true,
                _ => false,
            };
            match self.to_motion_unbounded(inst) {
                Motion::To(t) => {
                    self.await_input(Pending::Nothing);
                    self.remove_to(change, t);
                },
                Motion::Nowhere => self.await_input(Pending::Nothing),
                Motion::Find(forward, n) => self.await_input(Pending::Find(forward, n, op)),
                Motion::Next => self.await_input(Pending::Motion(op)),
            }
        } else {
            match self.to_motion(inst) {
                Motion::To(t) => {
                    self.await_input(Pending::Nothing);
                    self.arrive(op, t);
                },
                Motion::Nowhere => self.await_input(Pending::Nothing),
                Motion::Find(forward, n) => self.await_input(Pending::Find(forward, n, op)),
                Motion::Next => self.await_input(Pending::Motion(op)),
            }
        }
    }

    /// Gives the instruction `inst` to a command that waits for the
    /// character to look for.
    pub fn continue_find(&mut self, forward: bool, n: usize, op: Operator, inst: Inst)
        requires
            old(self).wf(),
        ensures
            final(self).wf(),
            final(self)@ == old(self)@.continued_find(forward, n, op, inst),
    {
        match inst.1.key {
            Key::Char(c) => {
                let found = if forward {
                    self.next_ocur(c, n)
                } else {
                    self.previous_ocur(c, n)
                };
                let y = self.y();
                self.await_input(Pending::Nothing);
                if let Some(x) = found {
                    self.arrive(op, (x, y));
                }
            },
            Key::Quit => self.await_input(Pending::Nothing),
            _ => {},
        }
    }

    /// Gives the instruction `inst` to the command that waits for the
    /// character to put in the place of the one under the cursor.
    pub fn continue_replace(&mut self, inst: Inst)
        requires
            old(self).wf(),
        ensures
            final(self).wf(),
            final(self)@ == old(self)@.continued_replace(inst),
    {
        match inst.1.key {
            Key::Char(c) => {
                let y = self.y();
                self.await_input(Pending::Nothing);
                self.buffers.current_buffer_info_mut().replace_char(c);
                self.redraw_task = RedrawTask::Lines(Range { start: y, end: y + 1 });
            },
            Key::Quit => self.await_input(Pending::Nothing),
            _ => {},
        }
    }

    /// Carries out the instruction `inst` by the mode of the cursor,
    /// where no command waits for input.
    pub fn dispatch(&mut self, inst: Inst) -> (request: Request)
        requires
            old(self).wf(),
        ensures
            final(self).wf(),
            final(self)@ == old(self)@.dispatched(inst),
            request@ == old(self)@.dispatched_asked(inst),
    {
        let key = inst.1.key;
        let space = match key {
            Key::Char(c) => c == ' ',
            _ => false,
        };
        let escape = match key {
            Key::Escape => true,
            _ => false,
        };
        let leave = escape || (space && inst.1.shift);
        let mode = self.cursor().mode;
        match mode {
            Mode::Primitive(PrimitiveMode::Prompt) => {
                if leave {
                    self.leave_prompt();
                } else if space && inst.1.alt {
                    self.next_cursor();
                } else if inst.1.alt {
                    self.continue_motion(Operator::Jump(false), inst);
                } else {
                    return self.prompt_key(key);
                }
            },
            Mode::Primitive(PrimitiveMode::Insert(opts)) => {
                if leave {
                    self.leave_insert();
                } else if space && inst.1.alt {
                    self.next_cursor();
                } else if inst.1.alt {
                    self.continue_motion(Operator::Jump(false), inst);
                } else {
                    self.insert(key, opts);
                }
            },
            Mode::Command(CommandMode::Normal) => {
                if space && inst.1.shift {
                } else if space && inst.1.alt {
                    self.next_cursor();
                } else if inst.1.alt {
                    self.continue_motion(Operator::Jump(false), inst);
                } else {
                    self.normal_command(inst.0, key);
                }
            },
        }
        Request::Nothing
    }

    /// Whether the instruction asks to repeat the last one.
    pub fn is_repeat(&self, inst: Inst) -> (repeat: bool)
        requires
            self.wf(),
        ensures
            repeat == self@.is_repeat(inst),
    {
        let idle = match self.pending {
            Pending::Nothing => true,
            _ => false,
        };
        let dot = match inst.1.key {
            Key::Char(c) => c == '.',
            _ => false,
        };
        idle && dot && !inst.1.alt && self.cursor().mode.is_normal()
    }

    /// Executes the instruction `inst`, and hands back what the host has
    /// to do for it.
    ///
    /// A command that waits for input takes the instruction as that
    /// input. Else `.` in normal mode carries out the last instruction
    /// once more, and any other instruction is carried out and kept as the
    /// last one. No instruction makes the editor give up: a key that
    /// means nothing leaves a message in the status bar.
    pub fn exec(&mut self, inst: Inst) -> (request: Request)
        requires
            old(self).wf(),
        ensures
            final(self).wf(),
            final(self)@ == old(self)@.executed(inst),
            request@ == old(self)@.executed_asked(inst),
    {
        match self.pending {
            Pending::Nothing => {
                if self.is_repeat(inst) {
                    match self.previous_instruction {
                        Some(last) => self.dispatch(last),
                        None => {
                            self.complain(String::from_str("No previous command"));
                            Request::Nothing
                        },
                    }
                } else {
                    let request = self.dispatch(inst);
                    self.previous_instruction = Some(inst);
                    request
                }
            },
            Pending::Motion(op) => {
                self.continue_motion(op, inst);
                Request::Nothing
            },
            Pending::Replace => {
                self.continue_replace(inst);
                Request::Nothing
            },
            Pending::Find(forward, n, op) => {
                self.continue_find(forward, n, op, inst);
                Request::Nothing
            },
        }
    }
}

/// `b` in normal mode, while no command waits for input, branches the
/// current cursor. Where the document has fewer than 255 cursors, it then
/// has one more: a copy of the current cursor stands at the index of the
/// current cursor, the cursors that were there are all kept in their
/// order, and the current index is one further on (counted round the new
/// number of cursors). Where it has 255, the cursors stay as they are and
/// the status bar says so. The text is the same in both cases.
pub proof fn lemma_branch_key(editor: EditorView, inst: Inst)
    requires
        editor.wf(),
        editor.pending == Pending::Nothing,
        editor.mode() == normal_mode(),
        inst.1.key == Key::Char('b'),
        !inst.1.alt,
    ensures
        editor.executed(inst).lines() == editor.lines(),
        editor.doc().cursors.len() < 255 ==> {
            &&& editor.executed(inst).doc().cursors == editor.doc().cursors.insert(
                editor.doc().current_cursor as int,
                editor.cursor(),
            )
            &&& editor.executed(inst).doc().current_cursor == (editor.doc().current_cursor + 1) % (
            editor.doc().cursors.len() + 1)
        },
        editor.doc().cursors.len() >= 255 ==> {
            &&& editor.executed(inst).doc().cursors == editor.doc().cursors
            &&& editor.executed(inst).doc().current_cursor == editor.doc().current_cursor
            &&& editor.executed(inst).status_bar.msg == "At max 255 cursors"@
        },
{
    let done = editor.dispatched(inst);
    assert(done == editor.normal_command(inst.0, inst.1.key));
    assert(done == editor.branched());
    if editor.doc().cursors.len() < 255 {
        vstd::arithmetic::div_mod::lemma_small_mod(
            editor.doc().current_cursor + 1,
            editor.doc().cursors.len() + 1,
        );
    }
}

} // verus!
