//! Motions: the places that the motion keys name.
//!
//! A motion is a key, with the count typed before it, that stands for a
//! place in the document. Commands that take a motion act on the text
//! between the cursor and that place.

use crate::caret::position::{bounded, clip, signed_pos, to_signed, to_signed_pos};
use crate::io::key::Key;
use crate::io::parse::{Inst, Parameter};
use crate::io::redraw::RedrawTask;
use crate::state::editor::{Editor, EditorView};
use vstd::prelude::*;
use vstd::string::StringExecFns;

verus! {

/// What an instruction means as a motion.
#[derive(Debug, PartialEq, Eq)]
pub enum Motion<P> {
    /// The motion leads to this place.
    To(P),
    /// The key names no motion.
    Nowhere,
    /// The motion leads to an occurrence of a character that is yet to be
    /// typed: after the cursor (or before it), and the how-manieth.
    Find(bool, usize),
    /// The motion is named by the next instruction.
    Next,
}

/// The row that the count `n` in front of `g` names: rows are counted
/// from one, and a count of zero names the row furthest down.
pub open spec fn row_of_count(n: usize) -> usize {
    if n == 0 {
        usize::MAX
    } else {
        (n - 1) as usize
    }
}

/// What the status bar says of a key that names no motion; `None` for
/// the motion keys.
pub open spec fn motion_complaint(key: Key) -> Option<Seq<char>> {
    match key {
        Key::Char(c) => if c == 'h' || c == 'l' || c == 'j' || c == 'k' || c == 'g' || c == 'G'
            || c == 'L' || c == 'H' || c == 't' || c == 'f' {
            None
        } else {
            Some("Motion not defined: '"@.push(c).push('\''))
        },
        _ => Some("Motion not defined"@),
    }
}

impl EditorView {
    /// The place that the instruction names as a motion, bounded so that
    /// the cursor can be put there.
    pub open spec fn motion(self, inst: Inst) -> Motion<(usize, usize)> {
        let n = inst.0.spec_d();
        let doc = self.doc();
        let y = doc.pos().1;
        match inst.1.key {
            Key::Char(c) => if c == 'h' {
                Motion::To(doc.left(n))
            } else if c == 'l' {
                Motion::To(doc.right(n, true))
            } else if c == 'j' {
                Motion::To(doc.down(n))
            } else if c == 'k' {
                Motion::To(doc.up(n))
            } else if c == 'g' {
                match inst.0 {
                    Parameter::Int(n) => Motion::To((0, row_of_count(n))),
                    Parameter::Null => Motion::Next,
                }
            } else if c == 'G' {
                Motion::To((0, (doc.lines.len() - 1) as usize))
            } else if c == 'L' {
                Motion::To(bounded(doc.lines, (usize::MAX, y), true))
            } else if c == 'H' {
                Motion::To((0, y))
            } else if c == 't' {
                Motion::Find(true, n)
            } else if c == 'f' {
                Motion::Find(false, n)
            } else {
                Motion::Nowhere
            },
            _ => Motion::Nowhere,
        }
    }

    /// The place that the instruction names as a motion, not bounded: the
    /// place may lie outside the text, so that a command can see how far
    /// the motion was meant to go.
    pub open spec fn motion_unbounded(self, inst: Inst) -> Motion<(isize, isize)> {
        let n = inst.0.spec_d();
        let doc = self.doc();
        let y = doc.pos().1;
        match inst.1.key {
            Key::Char(c) => if c == 'h' {
                Motion::To(doc.left_unbounded(n))
            } else if c == 'l' {
                Motion::To(doc.right_unbounded(n))
            } else if c == 'j' {
                Motion::To(doc.down_unbounded(n))
            } else if c == 'k' {
                Motion::To(doc.up_unbounded(n))
            } else if c == 'g' {
                match inst.0 {
                    Parameter::Int(n) => Motion::To((0, clip(n - 1))),
                    Parameter::Null => Motion::Next,
                }
            } else if c == 'G' {
                Motion::To((0, clip(doc.lines.len() - 1)))
            } else if c == 'L' {
                Motion::To(signed_pos((doc.line().len() as usize, y)))
            } else if c == 'H' {
                Motion::To((0, clip(y as int)))
            } else if c == 't' {
                Motion::Find(true, n)
            } else if c == 'f' {
                Motion::Find(false, n)
            } else {
                Motion::Nowhere
            },
            _ => Motion::Nowhere,
        }
    }

    /// The editor after the instruction was read as a motion: a key that
    /// names no motion leaves a message in the status bar.
    pub open spec fn after_motion(self, inst: Inst) -> EditorView {
        match motion_complaint(inst.1.key) {
            Some(msg) => self.with_msg(msg).with_redraw(RedrawTask::StatusBar),
            None => self,
        }
    }
}

impl Editor {
    /// Says of a key that names no motion that it names none.
    fn complain_of_motion(&mut self, key: Key)
        requires
            motion_complaint(key).is_some(),
        ensures
            final(self)@ == old(self)@.with_msg(motion_complaint(key).unwrap()).with_redraw(
                RedrawTask::StatusBar,
            ),
            final(self).buffers == old(self).buffers,
    {
        match key {
            Key::Char(c) => {
                let mut msg = String::from_str("Motion not defined: '");
                msg.push(c);
                msg.push('\'');
                self.status_bar.msg = msg;
            },
            _ => {
                self.status_bar.msg = String::from_str("Motion not defined");
            },
        }
        self.redraw_task = RedrawTask::StatusBar;
    }

    /// Reads the instruction as a motion and gives the place it names,
    /// bounded so that the cursor can be put there: `h`, `l`, `j`, `k` lead
    /// the count of columns or rows away; `g` with a count leads to the
    /// start of the row of that number and without one hands over to the
    /// next instruction; `G` leads to the start of the last row; `H` and
    /// `L` lead to the first and the last character of the line; `t` and
    /// `f` ask for a character to look for. Any other key names no motion,
    /// and the status bar says so.
    pub fn to_motion(&mut self, inst: Inst) -> (motion: Motion<(usize, usize)>)
        requires
            old(self).wf(),
        ensures
            final(self).wf(),
            motion == old(self)@.motion(inst),
            final(self)@ == old(self)@.after_motion(inst),
    {
        let n = inst.0.d();
        let y = self.y();
        match inst.1.key {
            Key::Char(c) => if c == 'h' {
                Motion::To(self.left(n))
            } else if c == 'l' {
                Motion::To(self.right(n, true))
            } else if c == 'j' {
                Motion::To(self.down(n))
            } else if c == 'k' {
                Motion::To(self.up(n))
            } else if c == 'g' {
                match inst.0 {
                    Parameter::Int(n) => Motion::To((0, n.wrapping_sub(1))),
                    Parameter::Null => Motion::Next,
                }
            } else if c == 'G' {
                Motion::To((0, self.buffers.current_buffer().len() - 1))
            } else if c == 'L' {
                Motion::To(self.bound((usize::MAX, y), true))
            } else if c == 'H' {
                Motion::To((0, y))
            } else if c == 't' {
                Motion::Find(true, n)
            } else if c == 'f' {
                Motion::Find(false, n)
            } else {
                self.complain_of_motion(inst.1.key);
                Motion::Nowhere
            },
            _ => {
                self.complain_of_motion(inst.1.key);
                Motion::Nowhere
            },
        }
    }

    /// Reads the instruction as a motion and gives the place it names, not
    /// bounded to the text: the place may have a negative column or row, or
    /// lie beyond the end, so that a command can see how far the motion was
    /// meant to go. The keys are those of `to_motion`; `L` here leads just
    /// past the last character of the line.
    pub fn to_motion_unbounded(&mut self, inst: Inst) -> (motion: Motion<(isize, isize)>)
        requires
            old(self).wf(),
        ensures
            final(self).wf(),
            motion == old(self)@.motion_unbounded(inst),
            final(self)@ == old(self)@.after_motion(inst),
    {
        let n = inst.0.d();
        let y = self.y();
        match inst.1.key {
            Key::Char(c) => if c == 'h' {
                Motion::To(self.left_unbounded(n))
            } else if c == 'l' {
                Motion::To(self.right_unbounded(n))
            } else if c == 'j' {
                Motion::To(self.down_unbounded(n))
            } else if c == 'k' {
                Motion::To(self.up_unbounded(n))
            } else if c == 'g' {
                match inst.0 {
                    Parameter::Int(n) => Motion::To(
                        (
                            0,
                            if n == 0 {
                                -1
                            } else {
                                to_signed(n - 1)
                            },
                        ),
                    ),
                    Parameter::Null => Motion::Next,
                }
            } else if c == 'G' {
                Motion::To((0, to_signed(self.buffers.current_buffer().len() - 1)))
            } else if c == 'L' {
                let len = self.buffers.current_buffer().get_line(y).unwrap().len();
                Motion::To(to_signed_pos((len, y)))
            } else if c == 'H' {
                Motion::To((0, to_signed(y)))
            } else if c == 't' {
                Motion::Find(true, n)
            } else if c == 'f' {
                Motion::Find(false, n)
            } else {
                self.complain_of_motion(inst.1.key);
                Motion::Nowhere
            },
            _ => {
                self.complain_of_motion(inst.1.key);
                Motion::Nowhere
            },
        }
    }
}

} // verus!
