//! A single line of text.

use vstd::prelude::*;

verus! {

/// A line of text: a mutable sequence of Unicode scalar values.
///
/// Columns are counted in scalar values, so every column between `0` and
/// `len()` is a valid place to insert at.
pub struct Line {
    chars: Vec<char>,
}

impl View for Line {
    type V = Seq<char>;

    closed spec fn view(&self) -> Seq<char> {
        self.chars@
    }
}

/// Whether `c` counts as indentation.
pub open spec fn is_indent_char(c: char) -> bool {
    c == ' ' || c == '\t'
}

/// The length of the longest prefix of `s` made of spaces and tabs only.
pub open spec fn indent_len(s: Seq<char>) -> nat
    decreases s.len(),
{
    if s.len() > 0 && is_indent_char(s[0]) {
        1 + indent_len(s.drop_first())
    } else {
        0
    }
}

/// The leading run of spaces and tabs of `s`.
pub open spec fn indent_of(s: Seq<char>) -> Seq<char> {
    s.take(indent_len(s) as int)
}

/// A prefix of indentation characters followed by a non-indentation character
/// (or the end) is exactly the indentation.
pub proof fn lemma_indent_len_unique(s: Seq<char>, k: int)
    requires
        0 <= k <= s.len(),
        forall|i: int| 0 <= i < k ==> is_indent_char(#[trigger] s[i]),
        k < s.len() ==> !is_indent_char(s[k]),
    ensures
        indent_len(s) == k,
    decreases s.len(),
{
    if s.len() > 0 && is_indent_char(s[0]) {
        let t = s.drop_first();
        assert(k > 0);
        assert forall|i: int| 0 <= i < k - 1 implies is_indent_char(#[trigger] t[i]) by {
            assert(t[i] == s[i + 1]);
        }
        lemma_indent_len_unique(t, k - 1);
    }
}

impl Line {
    /// The empty line.
    pub fn new() -> (line: Line)
        ensures
            line@ == Seq::<char>::empty(),
    {
        Line { chars: Vec::new() }
    }

    /// The line holding the characters of `s`.
    pub fn from_str(s: &str) -> (line: Line)
        ensures
            line@ == s@,
    {
        let mut chars: Vec<char> = Vec::new();
        for c in it: s.chars()
            invariant
                chars@ == it.seq().take(it.index() as int),
        {
            chars.push(c);
        }
        Line { chars }
    }

    /// The line holding the characters of `chars`.
    pub fn from_chars(chars: Vec<char>) -> (line: Line)
        ensures
            line@ == chars@,
    {
        Line { chars }
    }

    /// The number of characters in the line.
    pub fn len(&self) -> (n: usize)
        ensures
            n == self@.len(),
    {
        self.chars.len()
    }

    /// The characters of the line, in order.
    pub fn chars(&self) -> (chars: &Vec<char>)
        ensures
            chars@ == self@,
    {
        &self.chars
    }

    /// The character at column `idx`.
    pub fn get(&self, idx: usize) -> (c: char)
        requires
            idx < self@.len(),
        ensures
            c == self@[idx as int],
    {
        self.chars[idx]
    }
    /// Whether the line holds no character.
    pub fn is_empty(&self) -> (b: bool)
        ensures
            b == (self@.len() == 0),
    {
        self.chars.len() == 0
    }

    /// Inserts `ch` before column `idx`; `idx == len()` appends.
    pub fn insert(&mut self, idx: usize, ch: char)
        requires
            idx <= old(self)@.len(),
        ensures
            final(self)@ == old(self)@.insert(idx as int, ch),
    {
        self.chars.insert(idx, ch);
    }

    /// Appends `ch` to the line.
    pub fn push(&mut self, ch: char)
        ensures
            final(self)@ == old(self)@.push(ch),
    {
        self.chars.push(ch);
    }

    /// Removes the character at column `idx` and returns it.
    pub fn remove(&mut self, idx: usize) -> (ch: char)
        requires
            idx < old(self)@.len(),
        ensures
            ch == old(self)@[idx as int],
            final(self)@ == old(self)@.remove(idx as int),
    {
        self.chars.remove(idx)
    }

    /// Overwrites the character at column `idx` with `ch`.
    pub fn set_char(&mut self, idx: usize, ch: char)
        requires
            idx < old(self)@.len(),
        ensures
            final(self)@ == old(self)@.update(idx as int, ch),
    {
        self.chars.remove(idx);
        self.chars.insert(idx, ch);
        assert(self.chars@ =~= old(self).chars@.update(idx as int, ch));
    }

    /// Appends the characters of `s` to the line.
    pub fn push_slice(&mut self, s: &Line)
        ensures
            final(self)@ == old(self)@ + s@,
    {
        let n = s.chars.len();
        let mut i: usize = 0;
        while i < n
            invariant
                i <= n,
                n == s.chars@.len(),
                self.chars@ == old(self).chars@ + s.chars@.take(i as int),
            decreases n - i,
        {
            self.chars.push(s.chars[i]);
            assert(s.chars@.take(i + 1) =~= s.chars@.take(i as int).push(s.chars@[i as int]));
            assert(self.chars@ =~= old(self).chars@ + s.chars@.take(i + 1));
            i += 1;
        }
        assert(s.chars@.take(n as int) =~= s.chars@);
    }

    /// A copy of the columns `from..to` of the line.
    pub fn slice(&self, from: usize, to: usize) -> (part: Line)
        requires
            from <= to <= self@.len(),
        ensures
            part@ == self@.subrange(from as int, to as int),
    {
        let mut chars: Vec<char> = Vec::new();
        let mut i: usize = from;
        while i < to
            invariant
                from <= i <= to,
                to <= self.chars@.len(),
                chars@ == self.chars@.subrange(from as int, i as int),
            decreases to - i,
        {
            chars.push(self.chars[i]);
            assert(chars@ =~= self.chars@.subrange(from as int, i + 1));
            i += 1;
        }
        Line { chars }
    }

    /// A copy of the whole line.
    pub fn from_slice(s: &Line) -> (line: Line)
        ensures
            line@ == s@,
    {
        let line = s.slice(0, s.len());
        assert(s@.subrange(0, s@.len() as int) =~= s@);
        line
    }

    /// Removes the columns `from..to` and returns them.
    pub fn drain(&mut self, from: usize, to: usize) -> (removed: Line)
        requires
            from <= to <= old(self)@.len(),
        ensures
            removed@ == old(self)@.subrange(from as int, to as int),
            final(self)@ == old(self)@.subrange(0, from as int) + old(self)@.subrange(
                to as int,
                old(self)@.len() as int,
            ),
    {
        let mut tail = self.chars.split_off(to);
        let removed = self.chars.split_off(from);
        assert(removed@ =~= old(self).chars@.subrange(from as int, to as int));
        assert(self.chars@ =~= old(self).chars@.subrange(0, from as int));
        self.chars.append(&mut tail);
        Line { chars: removed }
    }

    /// Cuts the line at column `at`: the line keeps the columns before `at`,
    /// the rest is returned.
    pub fn split_off(&mut self, at: usize) -> (rest: Line)
        requires
            at <= old(self)@.len(),
        ensures
            final(self)@ == old(self)@.subrange(0, at as int),
            rest@ == old(self)@.subrange(at as int, old(self)@.len() as int),
    {
        let rest = self.chars.split_off(at);
        Line { chars: rest }
    }

    /// Empties the line.
    pub fn clear(&mut self)
        ensures
            final(self)@ == Seq::<char>::empty(),
    {
        self.chars.clear();
    }

    /// The leading run of spaces and tabs of the line.
    pub fn get_indent(&self) -> (indent: Line)
        ensures
            indent@ == indent_of(self@),
    {
        let n = self.chars.len();
        let mut len: usize = 0;
        while len < n && (self.chars[len] == ' ' || self.chars[len] == '\t')
            invariant
                len <= n,
                n == self.chars@.len(),
                forall|i: int| 0 <= i < len ==> is_indent_char(#[trigger] self.chars@[i]),
            decreases n - len,
        {
            len += 1;
        }
        proof {
            lemma_indent_len_unique(self.chars@, len as int);
        }
        self.slice(0, len)
    }

    /// Whether the two lines hold the same characters.
    pub fn same_as(&self, other: &Line) -> (same: bool)
        ensures
            same == (self@ == other@),
    {
        let n = self.chars.len();
        if other.chars.len() != n {
            return false;
        }
        let mut i: usize = 0;
        while i < n
            invariant
                i <= n,
                n == self.chars@.len(),
                n == other.chars@.len(),
                self.chars@.take(i as int) == other.chars@.take(i as int),
            decreases n - i,
        {
            if self.chars[i] != other.chars[i] {
                return false;
            }
            assert(self.chars@.take(i + 1) =~= self.chars@.take(i as int).push(self.chars@[i as int]));
            assert(other.chars@.take(i + 1) =~= other.chars@.take(i as int).push(
                other.chars@[i as int],
            ));
            i += 1;
        }
        assert(self.chars@.take(n as int) =~= self.chars@);
        assert(other.chars@.take(n as int) =~= other.chars@);
        true
    }

    /// Whether the line holds the characters of `s`.
    pub fn is_str(&self, s: &str) -> (same: bool)
        ensures
            same == (self@ == s@),
    {
        let other = Line::from_str(s);
        self.same_as(&other)
    }

    /// The line as a `String`.
    pub fn to_string(&self) -> (s: String)
        ensures
            s@ == self@,
    {
        let mut s = String::new();
        let n = self.chars.len();
        let mut i: usize = 0;
        while i < n
            invariant
                i <= n,
                n == self.chars@.len(),
                s@ == self.chars@.take(i as int),
            decreases n - i,
        {
            s.push(self.chars[i]);
            assert(self.chars@.take(i + 1) =~= self.chars@.take(i as int).push(self.chars@[i as int]));
            i += 1;
        }
        assert(self.chars@.take(n as int) =~= self.chars@);
        s
    }
}

impl Clone for Line {
    fn clone(&self) -> (line: Line)
        ensures
            line@ == self@,
    {
        Line::from_slice(self)
    }
}

/// `String::push` appends the character to the end of the string.
pub assume_specification[ String::push ](s: &mut String, c: char)
    ensures
        final(s)@ == old(s)@.push(c),
;

} // verus!
