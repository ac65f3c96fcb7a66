//! The `-*-` marker that encloses an Emacs-style magic comment.

use vstd::prelude::*;
use crate::ascii::{DASH, STAR};
use crate::lexer::buffer::Lexer;

verus! {

/// True when the three bytes of `bytes` from offset `k` are `-*-`.
pub open spec fn marker_at(bytes: Seq<u8>, k: int) -> bool {
    &&& 0 <= k
    &&& k + 3 <= bytes.len()
    &&& bytes[k] == DASH
    &&& bytes[k + 1] == STAR
    &&& bytes[k + 2] == DASH
}

/// The offset just behind the first `-*-` that lies wholly inside
/// `from..to`, or 0 when there is none.
pub open spec fn marker_end(bytes: Seq<u8>, from: int, to: int) -> int
    decreases to - from,
{
    if from + 3 > to {
        0
    } else if marker_at(bytes, from) {
        from + 3
    } else {
        marker_end(bytes, from + 1, to)
    }
}

/// With no marker inside `from..to`, `marker_end` is 0.
pub proof fn lemma_marker_none(bytes: Seq<u8>, from: int, to: int)
    requires
        forall|k: int| from <= k && k + 3 <= to ==> !marker_at(bytes, k),
    ensures
        marker_end(bytes, from, to) == 0,
    decreases to - from,
{
    if from + 3 <= to {
        lemma_marker_none(bytes, from + 1, to);
    }
}

/// With the first marker inside `from..to` at offset `k`, `marker_end` is the
/// offset behind it.
pub proof fn lemma_marker_first(bytes: Seq<u8>, from: int, k: int, to: int)
    requires
        from <= k,
        k + 3 <= to,
        marker_at(bytes, k),
        forall|j: int| from <= j < k ==> !marker_at(bytes, j),
    ensures
        marker_end(bytes, from, to) == k + 3,
    decreases k - from,
{
    if from < k {
        lemma_marker_first(bytes, from + 1, k, to);
    }
}

/// What `marker_end` gives is 0 or lies behind a marker inside `from..to`
/// before which there is no other.
pub proof fn lemma_marker_end_is_first(bytes: Seq<u8>, from: int, to: int)
    requires
        0 <= from,
    ensures
        ({
            let r = marker_end(bytes, from, to);
            if r == 0 {
                forall|k: int| from <= k && k + 3 <= to ==> !marker_at(bytes, k)
            } else {
                &&& from + 3 <= r <= to
                &&& r <= bytes.len()
                &&& marker_at(bytes, r - 3)
                &&& forall|j: int| from <= j < r - 3 ==> !marker_at(bytes, j)
            }
        }),
    decreases to - from,
{
    if from + 3 <= to && !marker_at(bytes, from) {
        lemma_marker_end_is_first(bytes, from + 1, to);
    }
}

/// `p + n`, but no further than `limit`.
fn advance(p: usize, n: usize, limit: usize) -> (r: usize)
    requires
        p <= limit,
    ensures
        r == if p + n <= limit { p + n } else { limit as int },
{
    if limit - p < n {
        limit
    } else {
        p + n
    }
}

impl Lexer {
    /// Looks for the marker `-*-` in the `len` bytes from offset `str_` and
    /// returns the offset just behind the first one, or 0 when there is
    /// none. The search looks at every third byte at most: where it stands
    /// on a byte that no marker could hold at that place, it skips the
    /// offsets that this byte rules out.
    pub fn magic_comment_marker(&self, str_: usize, len: usize) -> (r: usize)
        ensures
            r == marker_end(self.bytes(), str_ as int, str_ + len),
    {
        let size: usize = self.buffer.input.len();
        let ghost bytes = self.bytes();
        let ghost to: int = str_ + len;
        if str_ >= size || size - str_ < 3 || len < 3 {
            proof {
                lemma_marker_none(bytes, str_ as int, to);
            }
            return 0;
        }
        let limit: usize = if len > size - str_ {
            size
        } else {
            str_ + len
        };
        let mut p: usize = str_ + 2;
        while p < limit
            invariant
                bytes == self.bytes(),
                size == bytes.len(),
                to == str_ + len,
                limit <= size,
                limit <= to,
                limit == to || limit == size,
                str_ + 2 <= p <= limit,
                forall|k: int| str_ <= k < p - 2 ==> !marker_at(bytes, k),
            decreases limit - p,
        {
            let c: u8 = self.buffer.input.unchecked_byte_at(p);
            if c == DASH {
                if self.buffer.input.unchecked_byte_at(p - 1) == STAR
                    && self.buffer.input.unchecked_byte_at(p - 2) == DASH {
                    proof {
                        lemma_marker_first(bytes, str_ as int, p - 2, to);
                    }
                    return p + 1;
                }
                p = advance(p, 2, limit);
            } else if c == STAR {
                if p + 1 >= limit {
                    proof {
                        lemma_marker_none(bytes, str_ as int, to);
                    }
                    return 0;
                }
                if self.buffer.input.unchecked_byte_at(p + 1) != DASH {
                    p = advance(p, 4, limit);
                } else if self.buffer.input.unchecked_byte_at(p - 1) != DASH {
                    p = advance(p, 2, limit);
                } else {
                    proof {
                        lemma_marker_first(bytes, str_ as int, p - 1, to);
                    }
                    return p + 2;
                }
            } else {
                p = advance(p, 3, limit);
            }
        }
        proof {
            lemma_marker_none(bytes, str_ as int, to);
        }
        0
    }
}

} // verus!
