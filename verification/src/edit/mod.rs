//! Text storage and the edit operations on it.

pub mod line;
pub mod selection;
pub mod buffer;
pub mod delete;
pub mod insert;
pub mod invert;
