//! Byte ranges into the source buffer.

use vstd::prelude::*;
use vstd::string::StringExecFns;
use crate::fmt_support::write_text;
use crate::text::{digits, digits_text};

verus! {

/// `unit`, `count` times over.
pub open spec fn repeated(unit: Seq<char>, count: nat) -> Seq<char>
    decreases count,
{
    if count == 0 {
        Seq::empty()
    } else {
        repeated(unit, (count - 1) as nat) + unit
    }
}

/// Appends `unit` to `out`, `count` times over.
pub fn append_repeated(out: &mut String, unit: &str, count: usize)
    ensures
        final(out)@ == old(out)@ + repeated(unit@, count as nat),
{
    let mut i: usize = 0;
    assert(out@ + Seq::<char>::empty() =~= out@);
    while i < count
        invariant
            i <= count,
            out@ == old(out)@ + repeated(unit@, i as nat),
        decreases count - i,
    {
        out.append(unit);
        assert(out@ =~= old(out)@ + repeated(unit@, (i + 1) as nat));
        i = i + 1;
    }
}

/// A half-open range `begin..end` of byte offsets into the source buffer.
#[derive(Clone, Copy, PartialEq, Eq, Structural)]
pub struct Loc {
    /// Offset of the first byte.
    pub begin: usize,
    /// Offset one past the last byte.
    pub end: usize,
}

impl Loc {
    /// True when the range is ordered and ends inside a buffer of `len` bytes.
    pub open spec fn fits(self, len: int) -> bool {
        self.begin <= self.end && self.end <= len
    }

    /// True when `self` lies within `outer`.
    pub open spec fn within(self, outer: Loc) -> bool {
        outer.begin <= self.begin && self.end <= outer.end
    }

    /// The bytes that the range covers in `bytes`; meaningful when `fits`.
    pub open spec fn slice_of(self, bytes: Seq<u8>) -> Seq<u8> {
        bytes.subrange(self.begin as int, self.end as int)
    }

    /// Number of bytes covered; 0 for a range whose end lies before its
    /// begin.
    pub open spec fn extent(self) -> nat {
        if self.begin <= self.end {
            (self.end - self.begin) as nat
        } else {
            0
        }
    }

    /// The line that shows the range under a line of source: a space for
    /// each byte before the range, a `~` for each byte of it, a space and
    /// `name`.
    pub open spec fn underline(self, name: Seq<char>) -> Seq<char> {
        repeated(" "@, self.begin as nat) + repeated("~"@, self.extent()) + " "@ + name
    }

    /// How the range is shown: its begin, `...`, and its end, in decimal.
    pub open spec fn shown(self) -> Seq<char> {
        digits(self.begin as nat) + "..."@ + digits(self.end as nat)
    }

    /// Makes the range `begin..end`.
    pub fn new(begin: usize, end: usize) -> (r: Loc)
        ensures
            r.begin == begin,
            r.end == end,
    {
        Loc { begin, end }
    }

    /// Offset of the first byte.
    pub fn begin(&self) -> (r: usize)
        ensures
            r == self.begin,
    {
        self.begin
    }

    /// Offset one past the last byte.
    pub fn end(&self) -> (r: usize)
        ensures
            r == self.end,
    {
        self.end
    }

    /// Number of bytes covered.
    pub fn size(&self) -> (r: usize)
        requires
            self.begin <= self.end,
        ensures
            r == self.end - self.begin,
    {
        self.end - self.begin
    }

    /// The range as text, as `shown` says: `begin...end`.
    pub fn debug_text(&self) -> (r: String)
        ensures
            r@ == self.shown(),
    {
        let mut out = digits_text(self.begin as u64);
        out.append("...");
        let end = digits_text(self.end as u64);
        out.append(end.as_str());
        out
    }

    /// The line that shows the range under a line of source, as `underline`
    /// says.
    pub fn underlined(&self, name: &str) -> (r: String)
        ensures
            r@ == self.underline(name@),
    {
        let mut out = String::new();
        append_repeated(&mut out, " ", self.begin);
        let extent: usize = if self.begin <= self.end {
            self.end - self.begin
        } else {
            0
        };
        append_repeated(&mut out, "~", extent);
        out.append(" ");
        out.append(name);
        assert(out@ =~= self.underline(name@));
        out
    }
}

impl core::fmt::Debug for Loc {
    /// Writes the text that `debug_text` gives.
    fn fmt(&self, f: &mut core::fmt::Formatter<'_>) -> core::fmt::Result {
        let text = self.debug_text();
        write_text(f, text.as_str())
    }
}

} // verus!
