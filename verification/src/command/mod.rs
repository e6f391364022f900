//! Commands: what the keys do in each mode.

pub mod exec;
pub mod invoke;
pub mod normal;
pub mod prompt;
