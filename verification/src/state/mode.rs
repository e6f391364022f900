//! Editor modes.

use crate::edit::insert::InsertOptions;
use vstd::prelude::*;
use vstd::string::StringExecFns;

verus! {

/// A mode in which keys are commands.
#[derive(Copy, Clone, Debug, PartialEq, Eq, Structural)]
pub enum CommandMode {
    /// Normal mode.
    Normal,
}

/// A mode in which keys are text.
#[derive(Copy, Clone, Debug, PartialEq, Eq, Structural)]
pub enum PrimitiveMode {
    /// Text goes into the document.
    Insert(InsertOptions),
    /// Text goes into the prompt.
    Prompt,
}

/// The mode of a cursor.
#[derive(Copy, Clone, Debug, PartialEq, Eq, Structural)]
pub enum Mode {
    /// Keys are commands.
    Command(CommandMode),
    /// Keys are text.
    Primitive(PrimitiveMode),
}

impl Mode {
    /// The name of the mode.
    pub open spec fn name(self) -> Seq<char> {
        match self {
            Mode::Command(CommandMode::Normal) => "Normal"@,
            Mode::Primitive(PrimitiveMode::Insert(_)) => "Insert"@,
            Mode::Primitive(PrimitiveMode::Prompt) => "Prompt"@,
        }
    }

    /// The name of the mode, as the status bar shows it.
    pub fn to_string(self) -> (name: String)
        ensures
            name@ == self.name(),
    {
        match self {
            Mode::Command(CommandMode::Normal) => String::from_str("Normal"),
            Mode::Primitive(PrimitiveMode::Insert(_)) => String::from_str("Insert"),
            Mode::Primitive(PrimitiveMode::Prompt) => String::from_str("Prompt"),
        }
    }

    /// Whether this is normal mode.
    pub open spec fn spec_is_normal(self) -> bool {
        self == Mode::Command(CommandMode::Normal)
    }

    /// Whether this is normal mode.
    #[verifier::when_used_as_spec(spec_is_normal)]
    pub fn is_normal(self) -> (b: bool)
        ensures
            b == self.spec_is_normal(),
    {
        match self {
            Mode::Command(CommandMode::Normal) => true,
            _ => false,
        }
    }
}

} // verus!
