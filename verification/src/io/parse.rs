//! Instructions: a key with the count typed before it.

use crate::command::invoke::{Asked, Request};
use crate::io::key::{Cmd, Key, KeyEvent};
use crate::io::key_state::{key_fed, key_state_after};
use crate::io::redraw::RedrawTask;
use crate::io::status_bar::StatusBarView;
use crate::state::editor::{Editor, EditorView};
use crate::state::mode::Mode;
use crate::text::{char_to_digit, digit_value};
use vstd::prelude::*;

verus! {

/// The number typed before a command, if any.
#[derive(Copy, Clone, Debug, PartialEq, Eq, Structural)]
pub enum Parameter {
    /// A count was typed.
    Int(usize),
    /// No count was typed.
    Null,
}

/// What a command that takes a motion does with the place the motion names.
#[derive(Copy, Clone, Debug, PartialEq, Eq, Structural)]
pub enum Operator {
    /// Remove the text between the cursor and that place.
    Delete,
    /// Remove that text, then enter insert mode.
    Change,
    /// Move the cursor there. The flag says whether the move is reported
    /// to the renderer as a cursor move.
    Jump(bool),
    /// Scroll to the row of that place and move the cursor there.
    Scroll,
}

/// What the editor waits for before it can finish the command in progress.
#[derive(Copy, Clone, Debug, PartialEq, Eq, Structural)]
pub enum Pending {
    /// No command is in progress.
    Nothing,
    /// The instruction that names the motion of an operator.
    Motion(Operator),
    /// The character that takes the place of the one under the cursor.
    Replace,
    /// The character to look for on the line of the cursor: forwards or
    /// backwards, which occurrence, and what to do with the place found.
    Find(bool, usize, Operator),
}

/// An instruction: a command together with the count typed before it.
#[derive(Copy, Clone, Debug, PartialEq, Eq, Structural)]
pub struct Inst(pub Parameter, pub Cmd);

impl Parameter {
    /// The count, or `fallback` where none was typed.
    pub open spec fn spec_or(self, fallback: usize) -> usize {
        match self {
            Parameter::Int(n) => n,
            Parameter::Null => fallback,
        }
    }

    /// The count, or `fallback` where none was typed.
    #[verifier::when_used_as_spec(spec_or)]
    pub fn or(self, fallback: usize) -> (n: usize)
        ensures
            n == self.spec_or(fallback),
    {
        if let Parameter::Int(n) = self {
            n
        } else {
            fallback
        }
    }

    /// The count, or one where none was typed.
    pub open spec fn spec_d(self) -> usize {
        self.spec_or(1)
    }

    /// The count, or one where none was typed.
    #[verifier::when_used_as_spec(spec_d)]
    pub fn d(self) -> (n: usize)
        ensures
            n == self.spec_d(),
    {
        self.or(1)
    }
}

/// The count `count` with the digit `d` typed after it, or the largest
/// `usize` where that does not fit.
pub open spec fn count_with_digit(count: Parameter, d: nat) -> usize {
    let n = count.spec_or(0);
    if 10 * n + d > usize::MAX {
        usize::MAX
    } else {
        (10 * n + d) as usize
    }
}

/// Whether the key `key`, typed while the count is `count`, goes into the
/// count: in a command mode the digits do, but not a zero that starts the
/// count, which is a command of its own.
pub open spec fn is_count_digit(mode: Mode, count: Parameter, key: Key) -> bool {
    mode is Command && digit_value(key.spec_to_char()).is_some() && !(count == Parameter::Null
        && key.spec_to_char() == '0')
}

/// The count `count` with the digit `d` typed after it, or the largest
/// `usize` where that does not fit.
pub fn with_digit(count: Parameter, d: usize) -> (n: usize)
    requires
        d < 10,
    ensures
        n == count_with_digit(count, d as nat),
{
    let n = count.or(0);
    if n > (usize::MAX - d) / 10 {
        usize::MAX
    } else {
        10 * n + d
    }
}

impl EditorView {
    /// The editor after the key `key` was shown in the status bar as part
    /// of the command that is being typed. With the first key of an
    /// instruction the old command goes.
    pub open spec fn with_key_shown(self, key: Key) -> EditorView {
        let typed = if self.count == Parameter::Null {
            Seq::<char>::empty()
        } else {
            self.status_bar.cmd
        };
        EditorView {
            status_bar: StatusBarView { cmd: typed.push(key.spec_to_char()), ..self.status_bar },
            ..self
        }.with_redraw(RedrawTask::StatusBar)
    }

    /// The editor after the key event `k` was read for the next
    /// instruction. A modifier key changes what is held. A digit, in a
    /// command mode, goes into the count. Any other key ends the
    /// instruction, and the count starts anew.
    pub open spec fn inst_read(self, k: KeyEvent) -> EditorView {
        let held = EditorView { key_state: key_state_after(self.key_state, k), ..self };
        match key_fed(k) {
            None => held,
            Some(key) => {
                let shown = held.with_key_shown(key);
                if is_count_digit(self.mode(), self.count, key) {
                    EditorView {
                        count: Parameter::Int(
                            count_with_digit(self.count, digit_value(key.spec_to_char()).unwrap()),
                        ),
                        ..shown
                    }
                } else {
                    EditorView { count: Parameter::Null, ..shown }
                }
            },
        }
    }

    /// The instruction that the key event `k` ends, if it ends one: the
    /// key with the modifiers held, and the count typed before it.
    pub open spec fn inst_of(self, k: KeyEvent) -> Option<Inst> {
        match key_fed(k) {
            None => None,
            Some(key) => if is_count_digit(self.mode(), self.count, key) {
                None
            } else {
                let held = key_state_after(self.key_state, k);
                Some(
                    Inst(
                        self.count,
                        Cmd { key, shift: held.shift, alt: held.alt, ctrl: held.ctrl },
                    ),
                )
            },
        }
    }

    /// The character that the key event `k` brings, if it brings one.
    pub open spec fn char_of(k: KeyEvent) -> Option<char> {
        match key_fed(k) {
            Some(Key::Char(c)) => Some(c),
            _ => None,
        }
    }

    /// The editor after the key event `k` was read for a character.
    pub open spec fn char_read(self, k: KeyEvent) -> EditorView {
        let held = EditorView { key_state: key_state_after(self.key_state, k), ..self };
        match Self::char_of(k) {
            Some(c) => EditorView {
                status_bar: StatusBarView { cmd: self.status_bar.cmd.push(c), ..self.status_bar },
                ..held
            }.with_redraw(RedrawTask::StatusBar),
            None => held,
        }
    }

    /// Whether the command in progress waits for a character.
    pub open spec fn awaits_char(self) -> bool {
        self.pending is Replace || self.pending is Find
    }

    /// The instruction that stands for the character `c` typed with the
    /// modifiers that are held.
    pub open spec fn char_inst(self, c: char) -> Inst {
        Inst(
            Parameter::Null,
            Cmd {
                key: Key::Char(c),
                shift: self.key_state.shift,
                alt: self.key_state.alt,
                ctrl: self.key_state.ctrl,
            },
        )
    }

    /// The editor after the key event `k`: the event is read for a
    /// character where a command waits for one, else for an instruction,
    /// and what it completes is executed.
    pub open spec fn fed(self, k: KeyEvent) -> EditorView {
        if self.awaits_char() {
            let read = self.char_read(k);
            match Self::char_of(k) {
                Some(c) => read.executed(read.char_inst(c)),
                None => read,
            }
        } else {
            match self.inst_of(k) {
                Some(inst) => self.inst_read(k).executed(inst),
                None => self.inst_read(k),
            }
        }
    }

    /// What the key event `k` asks of the host.
    pub open spec fn fed_asked(self, k: KeyEvent) -> Asked {
        if self.awaits_char() {
            Asked::Nothing
        } else {
            match self.inst_of(k) {
                Some(inst) => self.inst_read(k).executed_asked(inst),
                None => Asked::Nothing,
            }
        }
    }
}

impl Editor {
    /// Reads the key event `k` for a character: a key with a character
    /// that goes down brings it, and it is shown in the status bar.
    /// Modifier keys change what is held.
    pub fn get_char(&mut self, k: KeyEvent) -> (c: Option<char>)
        requires
            old(self).wf(),
        ensures
            final(self).wf(),
            c == EditorView::char_of(k),
            final(self)@ == old(self)@.char_read(k),
    {
        match self.key_state.feed(k) {
            Some(Key::Char(c)) => {
                self.status_bar.cmd.push(c);
                self.redraw_task = RedrawTask::StatusBar;
                Some(c)
            },
            _ => None,
        }
    }

    /// Shows the key `key` in the status bar as part of the command that
    /// is being typed. With the first key of an instruction the old
    /// command goes.
    pub fn show_key(&mut self, key: Key)
        requires
            old(self).wf(),
        ensures
            final(self).wf(),
            final(self)@ == old(self)@.with_key_shown(key),
    {
        if let Parameter::Null = self.count {
            self.status_bar.cmd = String::new();
        }
        self.status_bar.cmd.push(key.to_char());
        self.redraw_task = RedrawTask::StatusBar;
    }

    /// The digit that `key` adds to the count, if it adds one.
    pub fn count_digit(&self, key: Key) -> (digit: Option<usize>)
        requires
            self.wf(),
        ensures
            digit.is_some() == is_count_digit(self@.mode(), self@.count, key),
            digit.is_some() ==> digit.unwrap() == digit_value(key.spec_to_char()).unwrap(),
    {
        let c = key.to_char();
        let in_command = match self.cursor().mode {
            Mode::Command(_) => true,
            Mode::Primitive(_) => false,
        };
        let fresh = match self.count {
            Parameter::Null => true,
            Parameter::Int(_) => false,
        };
        if in_command && !(fresh && c == '0') {
            char_to_digit(c)
        } else {
            None
        }
    }

    /// Reads the key event `k` for the next instruction, and hands the
    /// instruction back where the event ends it. In a command mode digits
    /// make up the count that goes before the key; a zero that would start
    /// the count is a key of its own. The keys typed are shown in the
    /// status bar.
    pub fn get_inst(&mut self, k: KeyEvent) -> (inst: Option<Inst>)
        requires
            old(self).wf(),
        ensures
            final(self).wf(),
            inst == old(self)@.inst_of(k),
            final(self)@ == old(self)@.inst_read(k),
    {
        let key = match self.key_state.feed(k) {
            Some(key) => key,
            None => {
                return None;
            },
        };
        let digit = self.count_digit(key);
        self.show_key(key);
        match digit {
            Some(d) => {
                self.count = Parameter::Int(with_digit(self.count, d));
                None
            },
            None => {
                let count = self.count;
                self.count = Parameter::Null;
                Some(
                    Inst(
                        count,
                        Cmd {
                            key,
                            shift: self.key_state.shift,
                            alt: self.key_state.alt,
                            ctrl: self.key_state.ctrl,
                        },
                    ),
                )
            },
        }
    }

    /// Whether the command in progress waits for a character.
    pub fn awaits_char(&self) -> (waits: bool)
        ensures
            waits == self@.awaits_char(),
    {
        match self.pending {
            Pending::Replace => true,
            Pending::Find(_, _, _) => true,
            _ => false,
        }
    }

    /// Takes a key event of the host: reads it for a character where a
    /// command waits for one, else for an instruction, and executes what
    /// the event completes. Hands back what the host has to do.
    pub fn feed(&mut self, k: KeyEvent) -> (request: Request)
        requires
            old(self).wf(),
        ensures
            final(self).wf(),
            final(self)@ == old(self)@.fed(k),
            request@ == old(self)@.fed_asked(k),
    {
        if self.awaits_char() {
            match self.get_char(k) {
                Some(c) => {
                    let inst = Inst(
                        Parameter::Null,
                        Cmd {
                            key: Key::Char(c),
                            shift: self.key_state.shift,
                            alt: self.key_state.alt,
                            ctrl: self.key_state.ctrl,
                        },
                    );
                    self.exec(inst)
                },
                None => Request::Nothing,
            }
        } else {
            match self.get_inst(k) {
                Some(inst) => self.exec(inst),
                None => Request::Nothing,
            }
        }
    }
}

} // verus!
