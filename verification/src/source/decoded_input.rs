//! The decoded source: a name, the bytes, and the lines that index them.

use vstd::prelude::*;
use crate::ascii::LINE_FEED;
use crate::source::source_line::SourceLine;

verus! {

/// True when no byte of `bytes[from..to]` is a line feed.
pub open spec fn no_newline(bytes: Seq<u8>, from: int, to: int) -> bool {
    forall|k: int| from <= k < to ==> #[trigger] bytes[k] != LINE_FEED
}

/// True when `line` is a line of `bytes`: it lies inside the buffer, it is
/// marked `ends_with_eof` exactly when it is the last one, and then it holds
/// no line feed; any other line ends with its only line feed.
pub open spec fn is_line_of(bytes: Seq<u8>, line: SourceLine, last: bool) -> bool {
    &&& line.start <= line.end <= bytes.len()
    &&& line.ends_with_eof == last
    &&& if last {
        no_newline(bytes, line.start as int, line.end as int)
    } else {
        &&& line.start < line.end
        &&& bytes[line.end - 1] == LINE_FEED
        &&& no_newline(bytes, line.start as int, line.end - 1)
    }
}

/// True when `lines` is the line index of `bytes`: the lines follow one
/// another without a gap from offset 0 to the end of the buffer, and each is
/// a line of the buffer as `is_line_of` says.
pub open spec fn is_line_index(bytes: Seq<u8>, lines: Seq<SourceLine>) -> bool {
    &&& lines.len() >= 1
    &&& lines[0].start == 0
    &&& lines[lines.len() - 1].end == bytes.len()
    &&& forall|i: int|
        0 <= i < lines.len() ==> is_line_of(bytes, #[trigger] lines[i], i == lines.len() - 1)
    &&& forall|i: int, j: int|
        0 <= i && j == i + 1 && j < lines.len() ==> (#[trigger] lines[i]).end == (
        #[trigger] lines[j]).start
}

/// Two line indexes of one buffer agree from line `i` on, if they agree on
/// where line `i` starts.
proof fn lemma_line_index_agrees(bytes: Seq<u8>, a: Seq<SourceLine>, b: Seq<SourceLine>, i: int)
    requires
        is_line_index(bytes, a),
        is_line_index(bytes, b),
        0 <= i < a.len(),
        i < b.len(),
        a[i].start == b[i].start,
    ensures
        a.len() == b.len(),
        forall|k: int| i <= k < a.len() ==> a[k] == b[k],
    decreases a.len() - i,
{
    let x = a[i];
    let y = b[i];
    let a_last = i == a.len() - 1;
    let b_last = i == b.len() - 1;
    assert(is_line_of(bytes, x, a_last));
    assert(is_line_of(bytes, y, b_last));
    if a_last && !b_last {
        assert(bytes[y.end - 1] == LINE_FEED);
    }
    if !a_last && b_last {
        assert(bytes[x.end - 1] == LINE_FEED);
    }
    if !a_last && !b_last {
        if x.end < y.end {
            assert(bytes[x.end - 1] == LINE_FEED);
        }
        if y.end < x.end {
            assert(bytes[y.end - 1] == LINE_FEED);
        }
        assert(a[i + 1].start == x.end);
        assert(b[i + 1].start == y.end);
        lemma_line_index_agrees(bytes, a, b, i + 1);
    }
}

/// A buffer has one line index only: what `is_line_index` says of the lines
/// fixes every one of them.
pub proof fn lemma_line_index_unique(bytes: Seq<u8>, a: Seq<SourceLine>, b: Seq<SourceLine>)
    requires
        is_line_index(bytes, a),
        is_line_index(bytes, b),
    ensures
        a == b,
{
    lemma_line_index_agrees(bytes, a, b, 0);
    assert(a =~= b);
}

/// True when every line of `lines` has `start <= end`.
pub open spec fn lines_ordered(lines: Seq<SourceLine>) -> bool {
    forall|i: int| 0 <= i < lines.len() ==> (#[trigger] lines[i]).start <= lines[i].end
}

/// Where a walk over `lines[i..]` that counts `pos` down by each line's
/// length places it: the first line longer than what is left of `pos`, and
/// what is left.
pub open spec fn walk_lines(lines: Seq<SourceLine>, i: int, pos: int) -> Option<(int, int)>
    decreases lines.len() - i,
{
    if i < 0 || i >= lines.len() {
        None
    } else if lines[i].spec_len() > pos {
        Some((i, pos))
    } else {
        walk_lines(lines, i + 1, pos - lines[i].spec_len())
    }
}

/// The `(line, column)` of byte offset `pos`: the end of the last line for
/// the offset at the end of the buffer, else what `walk_lines` finds.
pub open spec fn line_col_of(bytes: Seq<u8>, lines: Seq<SourceLine>, pos: int) -> Option<
    (int, int),
> {
    if pos == bytes.len() {
        if lines.len() == 0 {
            None
        } else {
            Some((lines.len() - 1, lines[lines.len() - 1].spec_len()))
        }
    } else {
        walk_lines(lines, 0, pos)
    }
}

/// Over the line index of a buffer, the walk from line `i` with what is left
/// of an offset inside the buffer ends in the line that holds the offset.
pub proof fn lemma_walk_indexed(bytes: Seq<u8>, lines: Seq<SourceLine>, i: int, pos: int)
    requires
        is_line_index(bytes, lines),
        0 <= i < lines.len(),
        lines[i].start <= pos < bytes.len(),
    ensures
        walk_lines(lines, i, pos - lines[i].start) matches Some((line, col)) && {
            &&& i <= line < lines.len()
            &&& lines[line].start <= pos < lines[line].end
            &&& col == pos - lines[line].start
        },
    decreases lines.len() - i,
{
    if lines[i].spec_len() > pos - lines[i].start {
    } else {
        assert(i < lines.len() - 1);
        lemma_walk_indexed(bytes, lines, i + 1, pos);
    }
}

/// Over the line index of a buffer, `line_col_of` is defined exactly for the
/// offsets up to the length of the buffer, and gives the line that holds the
/// offset and the distance from that line's start.
pub proof fn lemma_line_col_indexed(bytes: Seq<u8>, lines: Seq<SourceLine>, pos: int)
    requires
        is_line_index(bytes, lines),
        0 <= pos,
    ensures
        line_col_of(bytes, lines, pos) is Some <==> pos <= bytes.len(),
        line_col_of(bytes, lines, pos) matches Some((line, col)) ==> {
            &&& 0 <= line < lines.len()
            &&& lines[line].start + col == pos
            &&& pos <= lines[line].end
            &&& pos < lines[line].end || line == lines.len() - 1
        },
{
    if pos < bytes.len() {
        lemma_walk_indexed(bytes, lines, 0, pos);
    } else if pos > bytes.len() {
        lemma_walk_past_end(bytes, lines, 0, pos);
    }
}

/// Where line `i` of `lines` starts, or the end of the buffer when there is
/// no such line.
pub open spec fn start_of(bytes: Seq<u8>, lines: Seq<SourceLine>, i: int) -> int {
    if 0 <= i < lines.len() {
        lines[i].start as int
    } else {
        bytes.len() as int
    }
}

/// Over the line index of a buffer, the walk finds no line for an offset
/// past the end of the buffer.
pub proof fn lemma_walk_past_end(bytes: Seq<u8>, lines: Seq<SourceLine>, i: int, pos: int)
    requires
        is_line_index(bytes, lines),
        0 <= i <= lines.len(),
        pos > bytes.len(),
    ensures
        walk_lines(lines, i, pos - start_of(bytes, lines, i)) is None,
    decreases lines.len() - i,
{
    if i < lines.len() {
        lemma_walk_past_end(bytes, lines, i + 1, pos);
    }
}

/// The source after decoding, as handed back with the result of a parse.
#[derive(Debug, Clone, PartialEq, Eq)]
pub struct DecodedInput {
    /// Name of the buffer, used in messages.
    pub name: String,
    /// One entry per physical line.
    pub lines: Vec<SourceLine>,
    /// The bytes of the source.
    pub bytes: Vec<u8>,
}

impl DecodedInput {
    /// An empty input with the given name.
    pub fn named(name: &str) -> (r: DecodedInput)
        ensures
            r.name@ == name@,
            r.lines@.len() == 0,
            r.bytes@.len() == 0,
    {
        DecodedInput { name: name.to_owned(), lines: Vec::new(), bytes: Vec::new() }
    }

    /// Replaces the bytes and leaves the lines as they are.
    pub fn set_bytes(&mut self, bytes: Vec<u8>)
        ensures
            final(self).bytes == bytes,
            final(self).lines == old(self).lines,
            final(self).name == old(self).name,
    {
        self.bytes = bytes;
    }

    /// Replaces the bytes and the lines together.
    pub fn update(&mut self, bytes: Vec<u8>, lines: Vec<SourceLine>)
        ensures
            final(self).bytes == bytes,
            final(self).lines == lines,
            final(self).name == old(self).name,
        no_unwind
    {
        self.bytes = bytes;
        self.lines = lines;
    }

    /// Replaces the lines and leaves the bytes as they are.
    pub fn set_lines(&mut self, lines: Vec<SourceLine>)
        ensures
            final(self).lines == lines,
            final(self).bytes == old(self).bytes,
            final(self).name == old(self).name,
    {
        self.lines = lines;
    }

    /// Number of bytes.
    pub fn len(&self) -> (r: usize)
        ensures
            r == self.bytes@.len(),
    {
        self.bytes.len()
    }

    /// The byte at `idx`, or `None` past the end.
    pub fn byte_at(&self, idx: usize) -> (r: Option<u8>)
        ensures
            r == if idx < self.bytes@.len() {
                Some(self.bytes@[idx as int])
            } else {
                None
            },
    {
        if idx < self.bytes.len() {
            Some(self.bytes[idx])
        } else {
            None
        }
    }

    /// The bytes `start..end`, or `None` when the range is reversed or runs
    /// past the end.
    pub fn substr_at(&self, start: usize, end: usize) -> (r: Option<&[u8]>)
        ensures
            r is Some <==> start <= end && end <= self.bytes@.len(),
            r is Some ==> r->0@ == self.bytes@.subrange(start as int, end as int),
    {
        if start <= end && end <= self.bytes.len() {
            Some(vstd::slice::slice_subrange(self.bytes.as_slice(), start, end))
        } else {
            None
        }
    }

    /// The `(line, column)` of byte offset `pos`, as `line_col_of` defines it.
    pub fn line_col_for_pos(&self, pos: usize) -> (r: Option<(usize, usize)>)
        requires
            lines_ordered(self.lines@),
        ensures
            match r {
                Some((line, col)) => line_col_of(self.bytes@, self.lines@, pos as int) == Some(
                    (line as int, col as int),
                ),
                None => line_col_of(self.bytes@, self.lines@, pos as int) is None,
            },
    {
        let n: usize = self.lines.len();
        if pos == self.bytes.len() {
            if n == 0 {
                return None;
            }
            return Some((n - 1, self.lines[n - 1].len()));
        }
        let mut rest: usize = pos;
        let mut lineno: usize = 0;
        while lineno < n
            invariant
                n == self.lines@.len(),
                lineno <= n,
                lines_ordered(self.lines@),
                rest <= pos,
                pos != self.bytes@.len(),
                walk_lines(self.lines@, lineno as int, rest as int) == walk_lines(
                    self.lines@,
                    0,
                    pos as int,
                ),
            decreases n - lineno,
        {
            let line_len: usize = self.lines[lineno].len();
            if line_len > rest {
                return Some((lineno, rest));
            }
            rest = rest - line_len;
            lineno = lineno + 1;
        }
        None
    }
}

} // verus!
