//! The commands of the prompt.

use crate::edit::line::Line;
use crate::text::{char_to_digit, digit_value};
use vstd::prelude::*;

verus! {

/// A command of the prompt.
#[derive(Debug)]
pub enum PromptCommand {
    /// Set an option.
    SetOption {
        /// The option to set.
        option: String,
    },
    /// Unset an option.
    Unset {
        /// The option to unset.
        option: String,
    },
    /// Toggle an option.
    Toggle {
        /// The option to toggle.
        option: String,
    },
    /// Say whether an option is set.
    Get {
        /// The option to look at.
        option: String,
    },
    /// Open a file in a new document.
    Open {
        /// The path of the file.
        path: String,
    },
    /// Write the current document to a file.
    Write {
        /// The path of the file.
        path: String,
    },
    /// List the documents.
    ListBuffers,
    /// Make a new, empty document.
    CreateBuffer,
    /// Delete the current document.
    DeleteBuffer,
    /// Make another document the current one.
    SwitchToBuffer {
        /// The number of the document.
        buffer_index: usize,
    },
    /// Show the help text in a new document.
    Help,
    /// Leave the editor.
    Quit,
}

/// A command of the prompt as contracts see it.
pub enum Command {
    /// Set an option.
    SetOption(Seq<char>),
    /// Unset an option.
    Unset(Seq<char>),
    /// Toggle an option.
    Toggle(Seq<char>),
    /// Say whether an option is set.
    Get(Seq<char>),
    /// Open a file in a new document.
    Open(Seq<char>),
    /// Write the current document to a file.
    Write(Seq<char>),
    /// List the documents.
    ListBuffers,
    /// Make a new, empty document.
    CreateBuffer,
    /// Delete the current document.
    DeleteBuffer,
    /// Make another document the current one.
    SwitchToBuffer(usize),
    /// Show the help text in a new document.
    Help,
    /// Leave the editor.
    Quit,
}

impl View for PromptCommand {
    type V = Command;

    open spec fn view(&self) -> Command {
        match self {
            PromptCommand::SetOption { option } => Command::SetOption(option@),
            PromptCommand::Unset { option } => Command::Unset(option@),
            PromptCommand::Toggle { option } => Command::Toggle(option@),
            PromptCommand::Get { option } => Command::Get(option@),
            PromptCommand::Open { path } => Command::Open(path@),
            PromptCommand::Write { path } => Command::Write(path@),
            PromptCommand::ListBuffers => Command::ListBuffers,
            PromptCommand::CreateBuffer => Command::CreateBuffer,
            PromptCommand::DeleteBuffer => Command::DeleteBuffer,
            PromptCommand::SwitchToBuffer { buffer_index } => Command::SwitchToBuffer(
                *buffer_index,
            ),
            PromptCommand::Help => Command::Help,
            PromptCommand::Quit => Command::Quit,
        }
    }
}

/// The first column at or after `from` that holds a space; the length of
/// the text where none does.
pub open spec fn word_end(s: Seq<char>, from: int) -> int
    decreases s.len() - from,
{
    if from >= s.len() {
        s.len() as int
    } else if s[from] == ' ' {
        from
    } else {
        word_end(s, from + 1)
    }
}

/// The first word of the text: what stands before its first space.
pub open spec fn first_word(s: Seq<char>) -> Seq<char> {
    s.subrange(0, word_end(s, 0))
}

/// The second word of the text: what stands between its first space and
/// its second; nothing where it has no space.
pub open spec fn second_word(s: Seq<char>) -> Seq<char> {
    let end = word_end(s, 0);
    if end < s.len() {
        s.subrange(end + 1, word_end(s, end + 1))
    } else {
        Seq::<char>::empty()
    }
}

/// The number that the decimal digits `s` stand for; `None` where `s` is
/// empty or holds anything but digits.
pub open spec fn decimal_value(s: Seq<char>) -> Option<nat>
    decreases s.len(),
{
    if s.len() == 0 {
        None
    } else {
        match digit_value(s.last()) {
            None => None,
            Some(d) => if s.len() == 1 {
                Some(d)
            } else {
                match decimal_value(s.drop_last()) {
                    None => None,
                    Some(v) => Some(10 * v + d),
                }
            },
        }
    }
}

/// The number that the text `s` stands for as an unsigned decimal
/// numeral: a plus sign may come first, then comes at least one digit, and
/// nothing else. `None` for any other text.
pub open spec fn unsigned_value(s: Seq<char>) -> Option<nat> {
    if s.len() > 0 && s[0] == '+' {
        decimal_value(s.drop_first())
    } else {
        decimal_value(s)
    }
}

/// The command that the text of the prompt stands for, if it stands for
/// one. The first word names the command; the second, where the command
/// takes one, is its argument. `b` directly followed by a number (with or
/// without a plus sign before its digits) switches to the document of that
/// number.
pub open spec fn parsed(s: Seq<char>) -> Option<Command> {
    let base = first_word(s);
    let arg = second_word(s);
    if base == "set"@ {
        Some(Command::SetOption(arg))
    } else if base == "unset"@ {
        Some(Command::Unset(arg))
    } else if base == "toggle"@ || base == "tog"@ {
        Some(Command::Toggle(arg))
    } else if base == "get"@ {
        Some(Command::Get(arg))
    } else if base == "o"@ || base == "open"@ {
        Some(Command::Open(arg))
    } else if base == "w"@ || base == "write"@ {
        Some(Command::Write(arg))
    } else if base == "ls"@ {
        Some(Command::ListBuffers)
    } else if base == "bn"@ {
        Some(Command::CreateBuffer)
    } else if base == "bd"@ {
        Some(Command::DeleteBuffer)
    } else if base == "h"@ || base == "help"@ {
        Some(Command::Help)
    } else if base == "q"@ || base == "quit"@ {
        Some(Command::Quit)
    } else if base.len() > 0 && base[0] == 'b' {
        match unsigned_value(base.drop_first()) {
            Some(n) => if n <= usize::MAX {
                Some(Command::SwitchToBuffer(n as usize))
            } else {
                None
            },
            None => None,
        }
    } else {
        None
    }
}

/// The first column at or after `from` that holds a space; the length of
/// the line where none does.
pub fn find_word_end(s: &Line, from: usize) -> (end: usize)
    requires
        from <= s@.len(),
    ensures
        end == word_end(s@, from as int),
        from <= end <= s@.len(),
{
    let n = s.len();
    let mut i: usize = from;
    while i < n && s.get(i) != ' '
        invariant
            from <= i <= n,
            n == s@.len(),
            word_end(s@, from as int) == word_end(s@, i as int),
        decreases n - i,
    {
        i += 1;
    }
    i
}

/// The number that the decimal digits of `s` stand for; `None` where `s`
/// is empty, holds anything but digits, or stands for a number that no
/// `usize` holds.
pub fn parse_decimal(s: &Line) -> (value: Option<usize>)
    ensures
        match decimal_value(s@) {
            Some(n) => if n <= usize::MAX {
                value == Some(n as usize)
            } else {
                value.is_none()
            },
            None => value.is_none(),
        },
{
    let n = s.len();
    if n == 0 {
        return None;
    }
    let mut value: usize = 0;
    let mut i: usize = 0;
    while i < n
        invariant
            i <= n,
            n == s@.len(),
            n > 0,
            i > 0 ==> decimal_value(s@.take(i as int)) == Some(value as nat),
            i == 0 ==> value == 0,
        decreases n - i,
    {
        let ghost part = s@.take(i + 1);
        proof {
            assert(part.drop_last() =~= s@.take(i as int));
            assert(part.last() == s@[i as int]);
        }
        match char_to_digit(s.get(i)) {
            None => {
                proof {
                    lemma_decimal_prefix(s@, i + 1);
                }
                return None;
            },
            Some(d) => {
                if value > (usize::MAX - d) / 10 {
                    proof {
                        lemma_decimal_grows(s@, i + 1);
                    }
                    return None;
                }
                value = 10 * value + d;
            },
        }
        i += 1;
    }
    assert(s@.take(n as int) =~= s@);
    Some(value)
}

/// The number that the text of `s` stands for as an unsigned decimal
/// numeral, with or without a plus sign before its digits; `None` where the
/// text is no such numeral or stands for a number that no `usize` holds.
pub fn parse_unsigned(s: &Line) -> (value: Option<usize>)
    ensures
        match unsigned_value(s@) {
            Some(n) => if n <= usize::MAX {
                value == Some(n as usize)
            } else {
                value.is_none()
            },
            None => value.is_none(),
        },
{
    if s.len() > 0 && s.get(0) == '+' {
        let digits = s.slice(1, s.len());
        assert(digits@ =~= s@.drop_first());
        parse_decimal(&digits)
    } else {
        parse_decimal(s)
    }
}

/// Where a prefix of the digits stands for no number, the whole does not
/// either.
pub proof fn lemma_decimal_prefix(s: Seq<char>, k: int)
    requires
        0 < k <= s.len(),
        decimal_value(s.take(k)).is_none(),
    ensures
        decimal_value(s).is_none(),
    decreases s.len() - k,
{
    if k < s.len() {
        assert(s.take(k + 1).drop_last() =~= s.take(k));
        lemma_decimal_prefix(s, k + 1);
    } else {
        assert(s.take(k) =~= s);
    }
}

/// The digits stand for a number no smaller than a prefix of them does.
pub proof fn lemma_decimal_grows(s: Seq<char>, k: int)
    requires
        0 < k <= s.len(),
        decimal_value(s.take(k)).is_some(),
    ensures
        decimal_value(s).is_some() ==> decimal_value(s).unwrap() >= decimal_value(
            s.take(k),
        ).unwrap(),
    decreases s.len() - k,
{
    if k < s.len() {
        assert(s.take(k + 1).drop_last() =~= s.take(k));
        if decimal_value(s.take(k + 1)).is_some() {
            lemma_decimal_grows(s, k + 1);
        } else {
            lemma_decimal_prefix(s, k + 1);
        }
    } else {
        assert(s.take(k) =~= s);
    }
}

impl PromptCommand {
    /// Reads the text of the prompt as a command; `None` where it stands
    /// for none.
    pub fn parse(s: &str) -> (command: Option<PromptCommand>)
        ensures
            match parsed(s@) {
                Some(c) => command.is_some() && command.unwrap()@ == c,
                None => command.is_none(),
            },
    {
        let text = Line::from_str(s);
        let end = find_word_end(&text, 0);
        let base = text.slice(0, end);
        let arg = if end < text.len() {
            let stop = find_word_end(&text, end + 1);
            text.slice(end + 1, stop)
        } else {
            Line::new()
        };
        if base.is_str("set") {
            Some(PromptCommand::SetOption { option: arg.to_string() })
        } else if base.is_str("unset") {
            Some(PromptCommand::Unset { option: arg.to_string() })
        } else if base.is_str("toggle") || base.is_str("tog") {
            Some(PromptCommand::Toggle { option: arg.to_string() })
        } else if base.is_str("get") {
            Some(PromptCommand::Get { option: arg.to_string() })
        } else if base.is_str("o") || base.is_str("open") {
            Some(PromptCommand::Open { path: arg.to_string() })
        } else if base.is_str("w") || base.is_str("write") {
            Some(PromptCommand::Write { path: arg.to_string() })
        } else if base.is_str("ls") {
            Some(PromptCommand::ListBuffers)
        } else if base.is_str("bn") {
            Some(PromptCommand::CreateBuffer)
        } else if base.is_str("bd") {
            Some(PromptCommand::DeleteBuffer)
        } else if base.is_str("h") || base.is_str("help") {
            Some(PromptCommand::Help)
        } else if base.is_str("q") || base.is_str("quit") {
            Some(PromptCommand::Quit)
        } else if base.len() > 0 && base.get(0) == 'b' {
            let rest = base.slice(1, base.len());
            assert(rest@ =~= base@.drop_first());
            match parse_unsigned(&rest) {
                Some(number) => Some(PromptCommand::SwitchToBuffer { buffer_index: number }),
                None => None,
            }
        } else {
            None
        }
    }
}

} // verus!
