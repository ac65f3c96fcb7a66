//! One physical line of the source buffer.

use vstd::prelude::*;

verus! {

/// A line of the buffer: the bytes `start..end`, the newline included.
#[derive(Debug, Clone, Copy, PartialEq, Eq, Structural)]
pub struct SourceLine {
    /// Offset of the first byte of the line.
    pub start: usize,
    /// Offset one past the last byte of the line.
    pub end: usize,
    /// True for the line that ends where the buffer ends.
    pub ends_with_eof: bool,
}

impl SourceLine {
    /// Makes a line from its three parts.
    pub fn new(start: usize, end: usize, ends_with_eof: bool) -> (r: SourceLine)
        ensures
            r.start == start,
            r.end == end,
            r.ends_with_eof == ends_with_eof,
    {
        SourceLine { start, end, ends_with_eof }
    }

    /// Number of bytes in the line.
    pub open spec fn spec_len(self) -> int {
        self.end - self.start
    }

    /// Number of bytes in the line.
    pub fn len(&self) -> (r: usize)
        requires
            self.start <= self.end,
        ensures
            r == self.spec_len(),
    {
        self.end - self.start
    }
}

} // verus!
