//! The split buffer: the lines of a document, kept in two stacks around a
//! movable focus row.

use crate::edit::line::{indent_of, Line};
use vstd::prelude::*;
use vstd::string::StringExecFns;

verus! {

/// The logical lines held by the two stacks of a split buffer: the rows of
/// `before` in order, followed by the rows of `after` from its last to its
/// first.
pub open spec fn lines_of(before: Seq<Line>, after: Seq<Line>) -> Seq<Seq<char>> {
    Seq::new(
        before.len() + after.len(),
        |n: int|
            if n < before.len() {
                before[n]@
            } else {
                after[before.len() + after.len() - 1 - n]@
            },
    )
}

/// The views of a sequence of lines.
pub open spec fn views_of(lines: Seq<Line>) -> Seq<Seq<char>> {
    Seq::new(lines.len(), |n: int| lines[n]@)
}

/// The lines a buffer built from `lines` holds: the given lines, or one empty
/// line when none is given.
pub open spec fn lines_or_empty(lines: Seq<Seq<char>>) -> Seq<Seq<char>> {
    if lines.len() == 0 {
        seq![Seq::<char>::empty()]
    } else {
        lines
    }
}

/// Where the focus is after a line was inserted before row `n`.
pub open spec fn focus_after_insert(focus: nat, n: nat) -> nat {
    if n <= focus {
        focus + 1
    } else {
        focus
    }
}

/// Where the focus is after row `n` was removed.
pub open spec fn focus_after_remove(focus: nat, n: nat) -> nat {
    if n <= focus && focus > 0 {
        (focus - 1) as nat
    } else {
        focus
    }
}

/// `s` without the carriage return at its end, if it has one.
pub open spec fn without_cr(s: Seq<char>) -> Seq<char> {
    if s.len() > 0 && s.last() == '\r' {
        s.drop_last()
    } else {
        s
    }
}

/// The lines of the text that starts with the unfinished line `cur` and
/// goes on with `rest`. A line feed ends a line, and a carriage return just
/// before it goes with the line ending. What follows the last line feed is a
/// line of its own unless it is empty.
pub open spec fn split_lines_after(rest: Seq<char>, cur: Seq<char>) -> Seq<Seq<char>>
    decreases rest.len(),
{
    if rest.len() == 0 {
        if cur.len() == 0 {
            Seq::<Seq<char>>::empty()
        } else {
            seq![cur]
        }
    } else if rest[0] == '\n' {
        seq![without_cr(cur)] + split_lines_after(rest.drop_first(), Seq::<char>::empty())
    } else {
        split_lines_after(rest.drop_first(), cur.push(rest[0]))
    }
}

/// The lines of a text.
pub open spec fn split_lines(text: Seq<char>) -> Seq<Seq<char>> {
    split_lines_after(text, Seq::<char>::empty())
}

/// The text of a document: every line, each followed by a line feed.
pub open spec fn join_lines(lines: Seq<Seq<char>>) -> Seq<char>
    decreases lines.len(),
{
    if lines.len() == 0 {
        Seq::<char>::empty()
    } else {
        join_lines(lines.drop_last()) + lines.last().push('\n')
    }
}

/// The text storage of a document.
///
/// The lines are kept in two stacks. `before` holds the rows up to and
/// including the focus row, in order; `after` holds the rows below the focus,
/// in reverse order, so that the rows next to the focus sit at the ends of
/// both stacks. Work at the focus is cheap; moving the focus costs as many
/// steps as rows it crosses.
pub struct SplitBuffer {
    before: Vec<Line>,
    after: Vec<Line>,
}

impl View for SplitBuffer {
    type V = Seq<Seq<char>>;

    /// The lines of the document in logical order.
    closed spec fn view(&self) -> Seq<Seq<char>> {
        lines_of(self.before@, self.after@)
    }
}

impl SplitBuffer {
    /// The invariant of the buffer: it holds at least one line, the focus
    /// row exists, and the line count fits a `usize`.
    pub closed spec fn wf(&self) -> bool {
        &&& self.before@.len() >= 1
        &&& self.before@.len() + self.after@.len() <= usize::MAX
    }

    /// The focus row.
    pub closed spec fn focus(&self) -> nat {
        (self.before@.len() - 1) as nat
    }

    /// A well-formed buffer has a line, and its focus is one of its rows.
    pub proof fn lemma_wf(&self)
        requires
            self.wf(),
        ensures
            1 <= self@.len() <= usize::MAX,
            self.focus() < self@.len(),
    {
    }

    /// A buffer with a single empty line.
    pub fn new() -> (buffer: SplitBuffer)
        ensures
            buffer.wf(),
            buffer@ == seq![Seq::<char>::empty()],
            buffer.focus() == 0,
    {
        let mut before: Vec<Line> = Vec::new();
        before.push(Line::new());
        let buffer = SplitBuffer { before, after: Vec::new() };
        assert(buffer@ =~= seq![Seq::<char>::empty()]);
        buffer
    }

    /// A buffer holding copies of the given lines, with the focus on row 0.
    /// Without any line the buffer holds one empty line.
    pub fn from_lines(lines: &[Line]) -> (buffer: SplitBuffer)
        ensures
            buffer.wf(),
            buffer@ == lines_or_empty(views_of(lines@)),
            buffer.focus() == 0,
    {
        let n = lines.len();
        if n == 0 {
            return SplitBuffer::new();
        }
        let mut before: Vec<Line> = Vec::new();
        before.push(lines[0].clone());
        let mut after: Vec<Line> = Vec::new();
        let mut i: usize = n;
        while i > 1
            invariant
                1 <= i <= n,
                n == lines@.len(),
                after@.len() == n - i,
                forall|k: int| 0 <= k < after@.len() ==> (#[trigger] after@[k])@ == lines@[n - 1 - k]@,
            decreases i,
        {
            i -= 1;
            after.push(lines[i].clone());
        }
        let buffer = SplitBuffer { before, after };
        assert(buffer@ =~= views_of(lines@));
        buffer
    }

    /// A buffer holding the lines of `text`, with the focus on row 0.
    /// A text without any line gives a buffer with one empty line.
    pub fn from_str(text: &str) -> (buffer: SplitBuffer)
        ensures
            buffer.wf(),
            buffer@ == lines_or_empty(split_lines(text@)),
            buffer.focus() == 0,
    {
        let chars = Line::from_str(text);
        let n = chars.len();
        let mut out: Vec<Line> = Vec::new();
        let mut cur = Line::new();
        let mut i: usize = 0;
        proof {
            assert(text@.skip(0) =~= text@);
            assert(views_of(out@) + split_lines(text@) =~= split_lines(text@));
        }
        while i < n
            invariant
                i <= n,
                n == chars@.len(),
                chars@ == text@,
                split_lines(text@) == views_of(out@) + split_lines_after(
                    text@.skip(i as int),
                    cur@,
                ),
            decreases n - i,
        {
            let c = chars.get(i);
            let ghost rest = text@.skip(i as int);
            assert(rest.drop_first() =~= text@.skip(i + 1));
            assert(rest[0] == c);
            if c == '\n' {
                let len = cur.len();
                if len > 0 && cur.get(len - 1) == '\r' {
                    cur.remove(len - 1);
                }
                let ghost before = views_of(out@);
                let ghost done = cur@;
                out.push(cur);
                cur = Line::new();
                assert(views_of(out@) =~= before + seq![done]);
                assert(before + (seq![done] + split_lines_after(rest.drop_first(), cur@)) =~= (
                before + seq![done]) + split_lines_after(rest.drop_first(), cur@));
            } else {
                cur.push(c);
            }
            i += 1;
        }
        let ghost before = views_of(out@);
        if cur.len() > 0 {
            let ghost done = cur@;
            out.push(cur);
            assert(views_of(out@) =~= before + seq![done]);
        } else {
            assert(before + Seq::<Seq<char>>::empty() =~= before);
        }
        SplitBuffer::from_lines(out.as_slice())
    }

    /// The text of the document: every line, each followed by a line feed.
    pub fn to_string(&self) -> (text: String)
        requires
            self.wf(),
        ensures
            text@ == join_lines(self@),
    {
        let mut text = String::new();
        let n = self.len();
        let mut i: usize = 0;
        while i < n
            invariant
                self.wf(),
                i <= n,
                n == self@.len(),
                text@ == join_lines(self@.take(i as int)),
            decreases n - i,
        {
            let line = self.get_line(i).unwrap().to_string();
            text.append(line.as_str());
            text.push('\n');
            proof {
                let part = self@.take(i + 1);
                assert(part.drop_last() =~= self@.take(i as int));
                assert(part.last() == self@[i as int]);
                assert(text@ =~= join_lines(part.drop_last()) + part.last().push('\n'));
            }
            i += 1;
        }
        assert(self@.take(n as int) =~= self@);
        text
    }

    /// The number of lines.
    pub fn len(&self) -> (n: usize)
        requires
            self.wf(),
        ensures
            n == self@.len(),
            n >= 1,
    {
        self.before.len() + self.after.len()
    }

    /// The row the focus is on.
    pub fn focus_row(&self) -> (y: usize)
        requires
            self.wf(),
        ensures
            y == self.focus(),
            y < self@.len(),
    {
        self.before.len() - 1
    }

    /// Line `n`, or `None` where the buffer has no such row.
    pub fn get_line(&self, n: usize) -> (line: Option<&Line>)
        requires
            self.wf(),
        ensures
            n < self@.len() ==> line.is_some() && line.unwrap()@ == self@[n as int],
            n >= self@.len() ==> line.is_none(),
    {
        if n < self.before.len() {
            Some(&self.before[n])
        } else if n < self.len() {
            let k = self.len() - 1 - n;
            Some(&self.after[k])
        } else {
            None
        }
    }

    /// Line `n` for writing, or `None` where the buffer has no such row.
    /// Whatever the caller leaves in the line becomes row `n`; nothing else
    /// changes.
    pub fn get_line_mut(&mut self, n: usize) -> (line: Option<&mut Line>)
        requires
            old(self).wf(),
        ensures
            n < old(self)@.len() ==> line.is_some() && line.unwrap()@ == old(self)@[n as int]
                && final(self)@ == old(self)@.update(n as int, final(line.unwrap())@),
            n >= old(self)@.len() ==> line.is_none() && final(self)@ == old(self)@,
            final(self).wf(),
            final(self).focus() == old(self).focus(),
    {
        let ghost before = self.before@;
        let ghost after = self.after@;
        if n < self.before.len() {
            proof {
                assert forall|l: Line| #[trigger]
                    lines_of(before.update(n as int, l), after) == lines_of(before, after).update(
                        n as int,
                        l@,
                    ) by {
                    assert(lines_of(before.update(n as int, l), after) =~= lines_of(
                        before,
                        after,
                    ).update(n as int, l@));
                }
            }
            Some(&mut self.before[n])
        } else if n < self.len() {
            let k = self.len() - 1 - n;
            proof {
                assert forall|l: Line| #[trigger]
                    lines_of(before, after.update(k as int, l)) == lines_of(before, after).update(
                        n as int,
                        l@,
                    ) by {
                    assert(lines_of(before, after.update(k as int, l)) =~= lines_of(
                        before,
                        after,
                    ).update(n as int, l@));
                }
            }
            Some(&mut self.after[k])
        } else {
            None
        }
    }
    /// Moves the focus one row up: the focus row goes to the rows below it.
    fn up(&mut self)
        requires
            old(self).wf(),
            old(self).focus() > 0,
        ensures
            final(self).wf(),
            final(self)@ == old(self)@,
            final(self).focus() == old(self).focus() - 1,
    {
        let line = self.before.pop().unwrap();
        self.after.push(line);
        assert(self@ =~= old(self)@);
    }

    /// Moves the focus one row down: the row below the focus becomes the
    /// focus row.
    fn down(&mut self)
        requires
            old(self).wf(),
            old(self).focus() + 1 < old(self)@.len(),
        ensures
            final(self).wf(),
            final(self)@ == old(self)@,
            final(self).focus() == old(self).focus() + 1,
    {
        let line = self.after.pop().unwrap();
        self.before.push(line);
        assert(self@ =~= old(self)@);
    }

    /// Removes row `n` and returns it. The rows below it move up by one.
    ///
    /// The buffer never gives up its last line: a caller that wants to empty
    /// a one-line buffer clears that line instead.
    pub fn remove_line(&mut self, n: usize) -> (line: Line)
        requires
            old(self).wf(),
            n < old(self)@.len(),
            old(self)@.len() > 1,
        ensures
            final(self).wf(),
            line@ == old(self)@[n as int],
            final(self)@ == old(self)@.remove(n as int),
            final(self)@.len() == old(self)@.len() - 1,
            final(self).focus() == focus_after_remove(old(self).focus(), n as nat),
    {
        if n < self.before.len() {
            let line = self.before.remove(n);
            if self.before.len() == 0 {
                let next = self.after.pop().unwrap();
                self.before.push(next);
            }
            assert(self@ =~= old(self)@.remove(n as int));
            line
        } else {
            let k = self.len() - 1 - n;
            let line = self.after.remove(k);
            assert(self@ =~= old(self)@.remove(n as int));
            line
        }
    }

    /// Inserts `line` before row `n`: the old row `n` and the rows below it
    /// move down by one. With `n == len()` the line is appended.
    pub fn insert_line(&mut self, n: usize, line: Line)
        requires
            old(self).wf(),
            n <= old(self)@.len(),
            old(self)@.len() < usize::MAX,
        ensures
            final(self).wf(),
            final(self)@ == old(self)@.insert(n as int, line@),
            final(self)@.len() == old(self)@.len() + 1,
            final(self).focus() == focus_after_insert(old(self).focus(), n as nat),
    {
        if n < self.before.len() {
            self.before.insert(n, line);
        } else {
            let k = self.len() - n;
            self.after.insert(k, line);
        }
        assert(self@ =~= old(self)@.insert(n as int, line@));
    }

    /// Tells the buffer that work is about to happen on row `y`, and moves
    /// the focus there. The lines of the document are not affected.
    ///
    /// Rows are handed from one stack to the other one at a time: upwards as
    /// many times as the focus lies below `y`, downwards as many times as it
    /// lies above, never more often than the stack has rows to give.
    pub fn focus_hint_y(&mut self, y: usize)
        requires
            old(self).wf(),
            y < old(self)@.len(),
        ensures
            final(self).wf(),
            final(self)@ == old(self)@,
            final(self).focus() == y,
    {
        let focus = self.before.len() - 1;
        if y < focus {
            let dist = focus - y;
            let avail = self.before.len();
            let steps = if dist < avail { dist } else { avail };
            let mut i: usize = 0;
            while i < steps
                invariant
                    i <= steps,
                    steps == focus - y,
                    self.wf(),
                    self@ == old(self)@,
                    self.focus() == focus - i,
                decreases steps - i,
            {
                self.up();
                i += 1;
            }
        } else if y > focus {
            let dist = y - focus;
            let avail = self.after.len();
            let steps = if dist < avail { dist } else { avail };
            let mut i: usize = 0;
            while i < steps
                invariant
                    i <= steps,
                    steps == y - focus,
                    y < self@.len(),
                    self.wf(),
                    self@ == old(self)@,
                    self.focus() == focus + i,
                decreases steps - i,
            {
                self.down();
                i += 1;
            }
        }
    }

    /// Moves the focus to row `y`, or to the last row where the buffer has
    /// no row `y`. The lines of the document are not affected.
    pub fn goto(&mut self, y: usize)
        requires
            old(self).wf(),
        ensures
            final(self).wf(),
            final(self)@ == old(self)@,
            final(self).focus() == if y < old(self)@.len() {
                y as int
            } else {
                old(self)@.len() - 1
            },
    {
        let last = self.len() - 1;
        self.focus_hint_y(
            if y > last {
                last
            } else {
                y
            },
        );
    }

    /// Tells the buffer which column work is about to happen on. Columns
    /// have no focus of their own, so the buffer is left as it is.
    pub fn focus_hint_x(&mut self, x: usize)
        ensures
            *final(self) == *old(self),
    {
    }

    /// The leading run of spaces and tabs of row `n`; empty where the
    /// buffer has no such row.
    pub fn get_indent(&self, n: usize) -> (indent: Line)
        requires
            self.wf(),
        ensures
            indent@ == if n < self@.len() {
                indent_of(self@[n as int])
            } else {
                Seq::<char>::empty()
            },
    {
        match self.get_line(n) {
            Some(line) => line.get_indent(),
            None => Line::new(),
        }
    }

    /// A walk over the lines, starting at row 0.
    pub fn lines(&self) -> (iter: SplitBufIter<'_>)
        requires
            self.wf(),
        ensures
            iter.wf(),
            iter.lines() == self@,
            iter.position() == 0,
    {
        SplitBufIter { buffer: self, line: 0 }
    }

    /// A walk over the lines, starting at row `from`.
    pub fn lines_from(&self, from: usize) -> (iter: SplitBufIter<'_>)
        requires
            self.wf(),
        ensures
            iter.wf(),
            iter.lines() == self@,
            iter.position() == from,
    {
        SplitBufIter { buffer: self, line: from }
    }
}

/// A walk over the lines of a split buffer in logical order.
///
/// The walk is a row number into the buffer. It can be started as often as
/// wanted, and where the focus of the buffer lies makes no difference to it.
pub struct SplitBufIter<'a> {
    buffer: &'a SplitBuffer,
    line: usize,
}

impl<'a> SplitBufIter<'a> {
    /// The buffer under the walk is well-formed.
    pub closed spec fn wf(&self) -> bool {
        self.buffer.wf()
    }

    /// The lines of the buffer under the walk.
    pub closed spec fn lines(&self) -> Seq<Seq<char>> {
        self.buffer@
    }

    /// The row the walk hands out next.
    pub closed spec fn position(&self) -> nat {
        self.line as nat
    }

    /// The line at the current row, or `None` past the last row; the walk
    /// then moves `n` rows on (and stays below `usize::MAX`).
    pub fn nth(&mut self, n: usize) -> (line: Option<&'a Line>)
        requires
            old(self).wf(),
        ensures
            final(self).wf(),
            final(self).lines() == old(self).lines(),
            final(self).position() == if old(self).position() + n <= usize::MAX {
                old(self).position() + n
            } else {
                usize::MAX as int
            },
            old(self).position() < old(self).lines().len() ==> line.is_some() && line.unwrap()@
                == old(self).lines()[old(self).position() as int],
            old(self).position() >= old(self).lines().len() ==> line.is_none(),
    {
        let res = self.buffer.get_line(self.line);
        self.line = if n <= usize::MAX - self.line {
            self.line + n
        } else {
            usize::MAX
        };
        res
    }

    /// The line at the current row, or `None` past the last row; the walk
    /// then moves one row on.
    pub fn next(&mut self) -> (line: Option<&'a Line>)
        requires
            old(self).wf(),
        ensures
            final(self).wf(),
            final(self).lines() == old(self).lines(),
            final(self).position() == if old(self).position() < usize::MAX {
                old(self).position() + 1
            } else {
                usize::MAX as nat
            },
            old(self).position() < old(self).lines().len() ==> line.is_some() && line.unwrap()@
                == old(self).lines()[old(self).position() as int],
            old(self).position() >= old(self).lines().len() ==> line.is_none(),
    {
        self.nth(1)
    }

    /// Steps one row back and hands out the line there; `None` at row 0
    /// (the walk then stays) and where the row stepped to is past the last
    /// one.
    pub fn next_back(&mut self) -> (line: Option<&'a Line>)
        requires
            old(self).wf(),
        ensures
            final(self).wf(),
            final(self).lines() == old(self).lines(),
            old(self).position() == 0 ==> line.is_none() && final(self).position() == 0,
            old(self).position() > 0 ==> final(self).position() == old(self).position() - 1,
            0 < old(self).position() <= old(self).lines().len() ==> line.is_some()
                && line.unwrap()@ == old(self).lines()[old(self).position() - 1],
            old(self).position() > old(self).lines().len() ==> line.is_none(),
    {
        if self.line == 0 {
            None
        } else {
            self.line -= 1;
            self.buffer.get_line(self.line)
        }
    }

    /// The number of lines of the buffer under the walk.
    pub fn count(self) -> (n: usize)
        requires
            self.wf(),
        ensures
            n == self.lines().len(),
    {
        self.buffer.len()
    }

    /// Copies of the lines from the current row to the last one.
    pub fn collect(self) -> (rest: Vec<Line>)
        requires
            self.wf(),
        ensures
            views_of(rest@) == if self.position() <= self.lines().len() {
                self.lines().skip(self.position() as int)
            } else {
                Seq::<Seq<char>>::empty()
            },
    {
        let mut rest: Vec<Line> = Vec::new();
        let n = self.buffer.len();
        let mut i: usize = self.line;
        while i < n
            invariant
                self.buffer.wf(),
                n == self.buffer@.len(),
                self.line <= i,
                self.line <= n ==> i <= n,
                self.line > n ==> i == self.line,
                rest@.len() == i - self.line,
                forall|k: int| 0 <= k < rest@.len() ==> (#[trigger] rest@[k])@ == self.buffer@[self.line + k],
            decreases n - i,
        {
            match self.buffer.get_line(i) {
                Some(line) => rest.push(line.clone()),
                None => {},
            }
            i += 1;
        }
        proof {
            if self.line <= n {
                assert(views_of(rest@) =~= self.buffer@.skip(self.line as int));
            } else {
                assert(views_of(rest@) =~= Seq::<Seq<char>>::empty());
            }
        }
        rest
    }
}

/// A change to the lines of a buffer: a line put in before a row, or a
/// row taken out.
pub enum LineOp {
    /// The line goes in before the row of this number.
    Insert(nat, Seq<char>),
    /// The row of this number goes.
    Remove(nat),
}

/// Whether the buffer takes the change: a line can go in before any row
/// and after the last, and any row can go but the only one.
pub open spec fn op_allowed(lines: Seq<Seq<char>>, op: LineOp) -> bool {
    match op {
        LineOp::Insert(n, _) => n <= lines.len(),
        LineOp::Remove(n) => n < lines.len() && lines.len() > 1,
    }
}

/// The lines after the change, as `insert_line` and `remove_line` leave
/// them.
pub open spec fn op_applied(lines: Seq<Seq<char>>, op: LineOp) -> Seq<Seq<char>> {
    match op {
        LineOp::Insert(n, line) => lines.insert(n as int, line),
        LineOp::Remove(n) => lines.remove(n as int),
    }
}

/// Whether the buffer takes the changes, one after the other.
pub open spec fn ops_allowed(lines: Seq<Seq<char>>, ops: Seq<LineOp>) -> bool
    decreases ops.len(),
{
    ops.len() == 0 || (ops_allowed(lines, ops.drop_last()) && op_allowed(
        ops_applied(lines, ops.drop_last()),
        ops.last(),
    ))
}

/// The lines after the changes, one after the other.
pub open spec fn ops_applied(lines: Seq<Seq<char>>, ops: Seq<LineOp>) -> Seq<Seq<char>>
    decreases ops.len(),
{
    if ops.len() == 0 {
        lines
    } else {
        op_applied(ops_applied(lines, ops.drop_last()), ops.last())
    }
}

/// How many of the changes put a line in.
pub open spec fn count_inserts(ops: Seq<LineOp>) -> nat
    decreases ops.len(),
{
    if ops.len() == 0 {
        0
    } else {
        count_inserts(ops.drop_last()) + if ops.last() is Insert {
            1nat
        } else {
            0nat
        }
    }
}

/// How many of the changes take a row out.
pub open spec fn count_removes(ops: Seq<LineOp>) -> nat
    decreases ops.len(),
{
    if ops.len() == 0 {
        0
    } else {
        count_removes(ops.drop_last()) + if ops.last() is Remove {
            1nat
        } else {
            0nat
        }
    }
}

/// After any changes that the buffer takes, it has as many lines as it
/// had, plus one for each line put in, less one for each row taken out. A
/// new buffer has one line, so it then has one line plus the lines put in
/// less the rows taken out.
pub proof fn lemma_line_count(lines: Seq<Seq<char>>, ops: Seq<LineOp>)
    requires
        ops_allowed(lines, ops),
    ensures
        ops_applied(lines, ops).len() == lines.len() + count_inserts(ops) - count_removes(ops),
        lines.len() >= 1 ==> ops_applied(lines, ops).len() >= 1,
    decreases ops.len(),
{
    if ops.len() > 0 {
        lemma_line_count(lines, ops.drop_last());
    }
}

/// A buffer built from lines, of which there is at least one, hands the
/// same lines out again when they are walked over from the first row.
pub proof fn lemma_round_trip(lines: Seq<Seq<char>>)
    requires
        lines.len() > 0,
    ensures
        lines_or_empty(lines).skip(0) == lines,
{
    assert(lines.skip(0) =~= lines);
}

} // verus!
