//! How a file operation of the host ended.

use vstd::prelude::*;

verus! {

/// The status of a file operation.
#[derive(Copy, Clone, Debug, PartialEq, Eq, Structural)]
pub enum FileStatus {
    /// The operation succeeded.
    Done,
    /// The file was not found, or could not be opened.
    NotFound,
    /// Another error.
    Other,
}

} // verus!
