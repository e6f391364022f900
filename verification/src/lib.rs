//! The editing core of a modal, vi-like text editor: the in-memory document,
//! the position and motion algebra on top of it, the cursor set and the
//! command dispatcher that turns keystrokes into document changes.

pub mod caret;
pub mod command;
pub mod edit;
pub mod io;
pub mod state;
pub mod text;
