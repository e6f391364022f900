//! Where the cursor is and where a motion takes it.

pub mod motion;
pub mod movement;
pub mod position;
