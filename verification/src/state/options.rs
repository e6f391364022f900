//! The options of the editor.

use crate::text::str_eq;
use vstd::prelude::*;

verus! {

/// The options of the editor. Each has a name, and most a shorter one too,
/// by which the prompt reads and changes it.
#[derive(Copy, Clone, Debug, PartialEq, Eq, Structural)]
pub struct Options {
    /// Start a new line with the indentation of the line above?
    pub autoindent: bool,
    /// Debug mode.
    pub debug: bool,
    /// Colour the text?
    pub highlight: bool,
    /// Mark the line of the cursor?
    pub line_marker: bool,
    /// Refuse to write the document?
    pub readonly: bool,
    /// Show line numbers?
    pub line_numbers: bool,
}

/// The options, by what their names stand for.
#[derive(Copy, Clone, Debug, PartialEq, Eq, Structural)]
pub enum OptionKind {
    /// `autoindent`, `ai`.
    Autoindent,
    /// `debug`, `debug_mode`.
    Debug,
    /// `highlight`, `hl`.
    Highlight,
    /// `line_marker`, `linemarker`, `linemark`, `lm`.
    LineMarker,
    /// `readonly`, `ro`.
    Readonly,
    /// `line_numbers`, `ln`.
    LineNumbers,
}

/// The option that `name` names, if any.
pub open spec fn option_named(name: Seq<char>) -> Option<OptionKind> {
    if name == "autoindent"@ || name == "ai"@ {
        Some(OptionKind::Autoindent)
    } else if name == "debug"@ || name == "debug_mode"@ {
        Some(OptionKind::Debug)
    } else if name == "highlight"@ || name == "hl"@ {
        Some(OptionKind::Highlight)
    } else if name == "line_marker"@ || name == "linemarker"@ || name == "linemark"@ || name
        == "lm"@ {
        Some(OptionKind::LineMarker)
    } else if name == "readonly"@ || name == "ro"@ {
        Some(OptionKind::Readonly)
    } else if name == "line_numbers"@ || name == "ln"@ {
        Some(OptionKind::LineNumbers)
    } else {
        None
    }
}

/// The option that `name` names, if any.
pub fn option_kind(name: &str) -> (kind: Option<OptionKind>)
    ensures
        kind == option_named(name@),
{
    if str_eq(name, "autoindent") || str_eq(name, "ai") {
        Some(OptionKind::Autoindent)
    } else if str_eq(name, "debug") || str_eq(name, "debug_mode") {
        Some(OptionKind::Debug)
    } else if str_eq(name, "highlight") || str_eq(name, "hl") {
        Some(OptionKind::Highlight)
    } else if str_eq(name, "line_marker") || str_eq(name, "linemarker") || str_eq(
        name,
        "linemark",
    ) || str_eq(name, "lm") {
        Some(OptionKind::LineMarker)
    } else if str_eq(name, "readonly") || str_eq(name, "ro") {
        Some(OptionKind::Readonly)
    } else if str_eq(name, "line_numbers") || str_eq(name, "ln") {
        Some(OptionKind::LineNumbers)
    } else {
        None
    }
}

impl Options {
    /// The value of an option.
    pub open spec fn value(self, kind: OptionKind) -> bool {
        match kind {
            OptionKind::Autoindent => self.autoindent,
            OptionKind::Debug => self.debug,
            OptionKind::Highlight => self.highlight,
            OptionKind::LineMarker => self.line_marker,
            OptionKind::Readonly => self.readonly,
            OptionKind::LineNumbers => self.line_numbers,
        }
    }

    /// The options with one of them set to `value`.
    pub open spec fn with(self, kind: OptionKind, value: bool) -> Options {
        match kind {
            OptionKind::Autoindent => Options { autoindent: value, ..self },
            OptionKind::Debug => Options { debug: value, ..self },
            OptionKind::Highlight => Options { highlight: value, ..self },
            OptionKind::LineMarker => Options { line_marker: value, ..self },
            OptionKind::Readonly => Options { readonly: value, ..self },
            OptionKind::LineNumbers => Options { line_numbers: value, ..self },
        }
    }

    /// The value of the option that `name` names, if any.
    pub open spec fn spec_get(self, name: Seq<char>) -> Option<bool> {
        match option_named(name) {
            Some(kind) => Some(self.value(kind)),
            None => None,
        }
    }

    /// The options after the option that `name` names, if any, was set to
    /// `value`.
    pub open spec fn assigned(self, name: Seq<char>, value: bool) -> Options {
        match option_named(name) {
            Some(kind) => self.with(kind, value),
            None => self,
        }
    }

    /// The options after the option that `name` names, if any, was
    /// toggled.
    pub open spec fn toggled(self, name: Seq<char>) -> Options {
        match option_named(name) {
            Some(kind) => self.with(kind, !self.value(kind)),
            None => self,
        }
    }

    /// The options of an editor that has just started.
    pub fn new() -> (options: Options)
        ensures
            options == (Options {
                autoindent: true,
                debug: true,
                highlight: true,
                line_marker: true,
                readonly: false,
                line_numbers: false,
            }),
    {
        Options {
            autoindent: true,
            debug: true,
            highlight: true,
            line_marker: true,
            readonly: false,
            line_numbers: false,
        }
    }

    /// The option that `name` names, for writing; `None` where it names
    /// none. What the caller leaves there is the option's new value.
    pub fn get_mut(&mut self, name: &str) -> (option: Option<&mut bool>)
        ensures
            match option_named(name@) {
                Some(kind) => option.is_some() && *option.unwrap() == old(self).value(kind)
                    && *final(self) == old(self).with(kind, *final(option.unwrap())),
                None => option.is_none() && *final(self) == *old(self),
            },
    {
        match option_kind(name) {
            Some(OptionKind::Autoindent) => Some(&mut self.autoindent),
            Some(OptionKind::Debug) => Some(&mut self.debug),
            Some(OptionKind::Highlight) => Some(&mut self.highlight),
            Some(OptionKind::LineMarker) => Some(&mut self.line_marker),
            Some(OptionKind::Readonly) => Some(&mut self.readonly),
            Some(OptionKind::LineNumbers) => Some(&mut self.line_numbers),
            None => None,
        }
    }

    /// The value of the option that `name` names, if any.
    pub fn get(&self, name: &str) -> (value: Option<bool>)
        ensures
            value == self.spec_get(name@),
    {
        match option_kind(name) {
            Some(OptionKind::Autoindent) => Some(self.autoindent),
            Some(OptionKind::Debug) => Some(self.debug),
            Some(OptionKind::Highlight) => Some(self.highlight),
            Some(OptionKind::LineMarker) => Some(self.line_marker),
            Some(OptionKind::Readonly) => Some(self.readonly),
            Some(OptionKind::LineNumbers) => Some(self.line_numbers),
            None => None,
        }
    }

    /// Switches the option that `name` names on. Fails, and changes
    /// nothing, where it names none.
    pub fn set(&mut self, name: &str) -> (done: Result<(), ()>)
        ensures
            done.is_ok() == option_named(name@).is_some(),
            *final(self) == old(self).assigned(name@, true),
    {
        match self.get_mut(name) {
            Some(x) => {
                *x = true;
                Ok(())
            },
            None => Err(()),
        }
    }

    /// Switches the option that `name` names off. Fails, and changes
    /// nothing, where it names none.
    pub fn unset(&mut self, name: &str) -> (done: Result<(), ()>)
        ensures
            done.is_ok() == option_named(name@).is_some(),
            *final(self) == old(self).assigned(name@, false),
    {
        match self.get_mut(name) {
            Some(x) => {
                *x = false;
                Ok(())
            },
            None => Err(()),
        }
    }

    /// Switches the option that `name` names to its other value. Fails,
    /// and changes nothing, where it names none.
    pub fn toggle(&mut self, name: &str) -> (done: Result<(), ()>)
        ensures
            done.is_ok() == option_named(name@).is_some(),
            *final(self) == old(self).toggled(name@),
    {
        match self.get_mut(name) {
            Some(x) => {
                *x = !*x;
                Ok(())
            },
            None => Err(()),
        }
    }
}

} // verus!
