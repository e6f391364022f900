//! The status bar.

use vstd::prelude::*;
use vstd::string::StringExecFns;

verus! {

/// What the status bar shows.
pub struct StatusBar {
    /// The name of the current mode.
    pub mode: String,
    /// The keys of the command that is being typed.
    pub cmd: String,
    /// A message to the user, such as an error.
    pub msg: String,
}

/// What a status bar shows, as sequences of characters.
pub struct StatusBarView {
    /// The name of the current mode.
    pub mode: Seq<char>,
    /// The keys of the command that is being typed.
    pub cmd: Seq<char>,
    /// A message to the user.
    pub msg: Seq<char>,
}

impl View for StatusBar {
    type V = StatusBarView;

    open spec fn view(&self) -> StatusBarView {
        StatusBarView { mode: self.mode@, cmd: self.cmd@, msg: self.msg@ }
    }
}

impl StatusBar {
    /// The status bar of an editor that has just started.
    pub fn new() -> (bar: StatusBar)
        ensures
            bar@ == (StatusBarView {
                mode: "Normal"@,
                cmd: Seq::<char>::empty(),
                msg: "Welcome to Sodium!"@,
            }),
    {
        StatusBar {
            mode: String::from_str("Normal"),
            cmd: String::new(),
            msg: String::from_str("Welcome to Sodium!"),
        }
    }
}

} // verus!
