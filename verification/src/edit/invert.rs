//! Inverting characters: swapping a character with its counterpart.

use crate::caret::movement::after_pos;
use crate::io::redraw::RedrawTask;
use crate::state::buffers::{Buffer, Document};
use crate::state::editor::{Editor, EditorView};
use vstd::prelude::*;

verus! {

/// Whether `char::is_lowercase` holds of `c`.
pub uninterp spec fn is_lowercase(c: char) -> bool;

/// The characters that `char::to_uppercase` yields for `c`.
pub uninterp spec fn uppercase_of(c: char) -> Seq<char>;

/// The characters that `char::to_lowercase` yields for `c`.
pub uninterp spec fn lowercase_of(c: char) -> Seq<char>;

/// `char::is_lowercase`: whether the character has the Unicode property
/// `Lowercase`.
#[verifier::external_body]
fn char_is_lowercase(c: char) -> (lower: bool)
    ensures
        lower == is_lowercase(c),
{
    c.is_lowercase()
}

/// `char::to_uppercase`: the uppercase mapping of the character, as the
/// characters that the iterator yields, in order.
#[verifier::external_body]
fn char_to_uppercase(c: char) -> (upper: Vec<char>)
    ensures
        upper@ == uppercase_of(c),
{
    c.to_uppercase().collect()
}

/// `char::to_lowercase`: the lowercase mapping of the character, as the
/// characters that the iterator yields, in order.
#[verifier::external_body]
fn char_to_lowercase(c: char) -> (lower: Vec<char>)
    ensures
        lower@ == lowercase_of(c),
{
    c.to_lowercase().collect()
}

/// The first character of a case mapping, or a question mark where the
/// mapping is empty.
pub open spec fn first_or_question(mapping: Seq<char>) -> char {
    if mapping.len() > 0 {
        mapping[0]
    } else {
        '?'
    }
}

/// The character with its case swapped, given whether it is lowercase and
/// its two case mappings: a lowercase character becomes the first
/// character of its uppercase mapping, any other the first of its
/// lowercase mapping.
pub open spec fn case_swapped(lower: bool, upper: Seq<char>, lower_mapping: Seq<char>) -> char {
    if lower {
        first_or_question(upper)
    } else {
        first_or_question(lower_mapping)
    }
}

/// The counterpart of `c` among the characters that come in pairs, if it
/// is one of them. The pairs go both ways: each of the two is the
/// counterpart of the other.
pub open spec fn counterpart(c: char) -> Option<char> {
    if c == '<' {
        Some('>')
    } else if c == '>' {
        Some('<')
    } else if c == '&' {
        Some('|')
    } else if c == '|' {
        Some('&')
    } else if c == '(' {
        Some(')')
    } else if c == ')' {
        Some('(')
    } else if c == '+' {
        Some('-')
    } else if c == '-' {
        Some('+')
    } else if c == ';' {
        Some(':')
    } else if c == ':' {
        Some(';')
    } else if c == '\\' {
        Some('/')
    } else if c == '/' {
        Some('\\')
    } else if c == ',' {
        Some('.')
    } else if c == '.' {
        Some(',')
    } else if c == '\'' {
        Some('"')
    } else if c == '"' {
        Some('\'')
    } else if c == '[' {
        Some(']')
    } else if c == ']' {
        Some('[')
    } else if c == '{' {
        Some('}')
    } else if c == '}' {
        Some('{')
    } else if c == '!' {
        Some('?')
    } else if c == '?' {
        Some('!')
    } else {
        None
    }
}

/// The counterpart of a counterpart is the character itself.
pub proof fn lemma_counterpart_symmetric(c: char)
    requires
        counterpart(c).is_some(),
    ensures
        counterpart(counterpart(c).unwrap()) == Some(c),
{
}

/// Inverting a character that has a counterpart twice gives it back.
pub proof fn lemma_inverted_twice(c: char)
    requires
        counterpart(c).is_some(),
    ensures
        inverted(inverted(c)) == c,
{
    lemma_counterpart_symmetric(c);
}

/// The character that `c` is inverted to: its counterpart where it has
/// one, else `c` with its case swapped.
pub open spec fn inverted(c: char) -> char {
    match counterpart(c) {
        Some(d) => d,
        None => case_swapped(is_lowercase(c), uppercase_of(c), lowercase_of(c)),
    }
}

/// The counterpart of `c` among the characters that come in pairs, if it
/// is one of them.
pub fn paired(c: char) -> (d: Option<char>)
    ensures
        d == counterpart(c),
{
    if c == '<' {
        Some('>')
    } else if c == '>' {
        Some('<')
    } else if c == '&' {
        Some('|')
    } else if c == '|' {
        Some('&')
    } else if c == '(' {
        Some(')')
    } else if c == ')' {
        Some('(')
    } else if c == '+' {
        Some('-')
    } else if c == '-' {
        Some('+')
    } else if c == ';' {
        Some(':')
    } else if c == ':' {
        Some(';')
    } else if c == '\\' {
        Some('/')
    } else if c == '/' {
        Some('\\')
    } else if c == ',' {
        Some('.')
    } else if c == '.' {
        Some(',')
    } else if c == '\'' {
        Some('"')
    } else if c == '"' {
        Some('\'')
    } else if c == '[' {
        Some(']')
    } else if c == ']' {
        Some('[')
    } else if c == '{' {
        Some('}')
    } else if c == '}' {
        Some('{')
    } else if c == '!' {
        Some('?')
    } else if c == '?' {
        Some('!')
    } else {
        None
    }
}

/// The character with its case swapped, given whether it is lowercase and
/// its two case mappings.
pub fn swap_case(lower: bool, upper: &Vec<char>, lower_mapping: &Vec<char>) -> (c: char)
    ensures
        c == case_swapped(lower, upper@, lower_mapping@),
{
    let mapping = if lower {
        upper
    } else {
        lower_mapping
    };
    if mapping.len() > 0 {
        mapping[0]
    } else {
        '?'
    }
}

/// Inverts a character: it is swapped with its counterpart; a character
/// without counterpart has its case swapped.
pub fn invert(c: char) -> (d: char)
    ensures
        d == inverted(c),
{
    match paired(c) {
        Some(d) => d,
        None => {
            let lower = char_is_lowercase(c);
            let upper = char_to_uppercase(c);
            let lower_mapping = char_to_lowercase(c);
            swap_case(lower, &upper, &lower_mapping)
        },
    }
}

impl Document {
    /// The document after the character under the cursor, if the cursor
    /// is on one, was inverted, and the cursor went on to the next
    /// character of the text, if there is one.
    pub open spec fn char_inverted(self) -> Document {
        let (x, y) = self.pos();
        let changed = match self.current() {
            Some(c) => self.with_line(y as int, self.line().update(x as int, inverted(c))),
            None => self,
        };
        match after_pos(changed.lines, 1, changed.pos()) {
            Some(p) => changed.moved_to(p),
            None => changed,
        }
    }

    /// The document after `n` characters were inverted, one after the
    /// other.
    pub open spec fn chars_inverted(self, n: nat) -> Document
        decreases n,
    {
        if n == 0 {
            self
        } else {
            self.chars_inverted((n - 1) as nat).char_inverted()
        }
    }
}

impl EditorView {
    /// The editor after `n` characters from the cursor on were inverted.
    pub open spec fn chars_inverted(self, n: usize) -> EditorView {
        self.with_doc(self.doc().chars_inverted(n as nat).hinted()).with_redraw(
            RedrawTask::LinesAfter(self.pos().1),
        )
    }
}

impl Buffer {
    /// Inverts the character under the cursor, if the cursor is on one,
    /// and puts the cursor on the next character of the text, if there is
    /// one.
    pub fn invert_char(&mut self)
        requires
            old(self).wf(),
        ensures
            final(self).wf(),
            final(self)@ == old(self)@.char_inverted(),
    {
        let (x, y) = self.pos();
        if let Some(c) = self.current() {
            self.raw_buffer.get_line_mut(y).unwrap().set_char(x, invert(c));
            proof {
                self.raw_buffer.lemma_wf();
            }
        }
        if let Some(p) = self.next(1) {
            self.goto(p);
        }
    }

    /// Inverts `n` characters from the cursor on, one after the other.
    pub fn invert_chars(&mut self, n: usize)
        requires
            old(self).wf(),
        ensures
            final(self).wf(),
            final(self)@ == old(self)@.chars_inverted(n as nat).hinted(),
    {
        let mut i: usize = 0;
        while i < n
            invariant
                i <= n,
                self.wf(),
                self@ == old(self)@.chars_inverted(i as nat),
            decreases n - i,
        {
            self.invert_char();
            i += 1;
        }
        self.hint();
    }
}

impl Editor {
    /// Inverts `n` characters from the cursor on: each is swapped with its
    /// counterpart, or has its case swapped where it has none, and the
    /// cursor goes on to the next character.
    pub fn invert_chars(&mut self, n: usize)
        requires
            old(self).wf(),
        ensures
            final(self).wf(),
            final(self)@ == old(self)@.chars_inverted(n),
    {
        let y = self.y();
        self.redraw_task = RedrawTask::LinesAfter(y);
        self.buffers.current_buffer_info_mut().invert_chars(n);
    }
}

} // verus!
