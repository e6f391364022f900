//! Keys, instructions and what the editor tells its host.

pub mod file;
pub mod key;
pub mod key_state;
pub mod parse;
pub mod redraw;
pub mod status_bar;
