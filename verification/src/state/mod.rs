//! The state of the editor: modes, cursors, options, documents.

pub mod buffers;
pub mod cursor;
pub mod editor;
pub mod mode;
pub mod options;
