//! Half-open ranges of block heights requested from the provider in one stream.
use vstd::prelude::*;

verus! {

/// Number of heights covered by one window.
pub const WINDOW_SIZE: u64 = 500;

/// The heights `start..end` asked for in one streaming request.
#[derive(Debug, Clone, Copy, PartialEq, Eq, Structural)]
pub struct BlockWindow {
    pub start: u64,
    pub end: u64,
}

impl BlockWindow {
    /// A window of the fixed span: it is never empty.
    pub open spec fn wf(&self) -> bool {
        self.end == self.start + WINDOW_SIZE
    }

    /// Whether a window of the fixed span can start at `start` without
    /// leaving the range of `u64`.
    pub open spec fn fits_from(start: u64) -> bool {
        start + WINDOW_SIZE <= u64::MAX
    }

    /// The window `start..start + WINDOW_SIZE`, or `None` where its end would
    /// not fit in a `u64`.
    pub fn starting_at(start: u64) -> (r: Option<BlockWindow>)
        ensures
            r is Some <==> Self::fits_from(start),
            r matches Some(w) ==> w.start == start && w.wf(),
    {
        if start <= u64::MAX - WINDOW_SIZE {
            Some(BlockWindow { start, end: start + WINDOW_SIZE })
        } else {
            None
        }
    }

    /// The window that follows this one: it starts where this one ends.
    pub fn next(&self) -> (r: Option<BlockWindow>)
        ensures
            r is Some <==> Self::fits_from(self.end),
            r matches Some(w) ==> w.start == self.end && w.wf(),
    {
        BlockWindow::starting_at(self.end)
    }

    /// Whether `height` lies in `start..end`.
    pub fn contains(&self, height: u64) -> (r: bool)
        ensures
            r == (self.start <= height && height < self.end),
    {
        self.start <= height && height < self.end
    }
}

} // verus!
