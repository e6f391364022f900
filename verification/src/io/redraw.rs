//! What the renderer is asked to draw again.

use core::ops::Range;
use vstd::prelude::*;

verus! {

/// A task for the renderer. The editor sets the most specific task that
/// covers what an instruction changed; it never draws itself.
#[derive(Debug, PartialEq, Eq)]
pub enum RedrawTask {
    /// Nothing to redraw.
    Null,
    /// Redraw a range of rows.
    Lines(Range<usize>),
    /// Redraw the rows from the given one on.
    LinesAfter(usize),
    /// Redraw the whole screen.
    Full,
    /// Redraw the status bar.
    StatusBar,
    /// The cursor moved from the first position to the second.
    Cursor((usize, usize), (usize, usize)),
}

impl Clone for RedrawTask {
    fn clone(&self) -> (task: RedrawTask)
        ensures
            task == *self,
    {
        match self {
            RedrawTask::Null => RedrawTask::Null,
            RedrawTask::Lines(range) => RedrawTask::Lines(
                Range { start: range.start, end: range.end },
            ),
            RedrawTask::LinesAfter(y) => RedrawTask::LinesAfter(*y),
            RedrawTask::Full => RedrawTask::Full,
            RedrawTask::StatusBar => RedrawTask::StatusBar,
            RedrawTask::Cursor(from, to) => RedrawTask::Cursor(*from, *to),
        }
    }
}

/// The task of redrawing row `y` alone.
pub open spec fn redraw_line(y: usize) -> RedrawTask {
    RedrawTask::Lines(Range { start: y, end: (y + 1) as usize })
}

} // verus!
