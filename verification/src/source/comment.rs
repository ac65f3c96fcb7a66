//! Comments and their classification.

use vstd::prelude::*;
use vstd::string::StringSliceAdditionalSpecFns;
use crate::loc::Loc;
use crate::source::input::Input;

verus! {

/// The kinds of comment.
#[derive(Debug, Clone, Copy, PartialEq, Eq, Structural)]
pub enum CommentType {
    /// A comment that starts with `#` and runs to the end of its line.
    Inline,
    /// A block comment between `=begin` and `=end`.
    Document,
    /// Neither: the range or the input it was taken from is not valid.
    Unknown,
}

impl CommentType {
    /// The kind `Inline`.
    pub fn inline() -> (r: CommentType)
        ensures
            r == CommentType::Inline,
    {
        CommentType::Inline
    }

    /// The kind `Document`.
    pub fn document() -> (r: CommentType)
        ensures
            r == CommentType::Document,
    {
        CommentType::Document
    }

    /// The kind `Unknown`.
    pub fn unknown() -> (r: CommentType)
        ensures
            r == CommentType::Unknown,
    {
        CommentType::Unknown
    }
}

/// True when `text` begins with the bytes of `prefix`.
pub open spec fn has_prefix(text: Seq<u8>, prefix: Seq<u8>) -> bool {
    prefix.len() <= text.len() && text.subrange(0, prefix.len() as int) == prefix
}

/// Whether `text` begins with the bytes of `prefix`.
pub fn starts_with(text: &[u8], prefix: &[u8]) -> (r: bool)
    ensures
        r == has_prefix(text@, prefix@),
{
    if prefix.len() > text.len() {
        return false;
    }
    let mut i: usize = 0;
    while i < prefix.len()
        invariant
            prefix@.len() <= text@.len(),
            i <= prefix@.len(),
            forall|k: int| 0 <= k < i ==> text@[k] == prefix@[k],
        decreases prefix@.len() - i,
    {
        if text[i] != prefix[i] {
            assert(text@.subrange(0, prefix@.len() as int)[i as int] != prefix@[i as int]);
            return false;
        }
        i = i + 1;
    }
    assert(text@.subrange(0, prefix@.len() as int) =~= prefix@);
    true
}

/// The kind of the comment that `location` covers in `bytes`: `Inline` when
/// its text begins with `#`, `Document` when it begins with `=begin`, and
/// `Unknown` for any other text and for a range that does not lie inside the
/// buffer.
pub open spec fn comment_kind_of(bytes: Seq<u8>, location: Loc) -> CommentType {
    if !location.fits(bytes.len() as int) {
        CommentType::Unknown
    } else if has_prefix(location.slice_of(bytes), "#".spec_bytes()) {
        CommentType::Inline
    } else if has_prefix(location.slice_of(bytes), "=begin".spec_bytes()) {
        CommentType::Document
    } else {
        CommentType::Unknown
    }
}

/// A comment of the source.
#[derive(Debug, Clone, Copy, PartialEq, Eq, Structural)]
pub struct Comment {
    /// Range of the comment, from its first character to its last.
    pub location: Loc,
    /// Kind of the comment.
    pub kind: CommentType,
}

impl Comment {
    /// A comment with the kind given.
    pub fn make(location: Loc, kind: CommentType) -> (r: Comment)
        ensures
            r == (Comment { location, kind }),
    {
        Comment { location, kind }
    }

    /// The comment at `location`, classified by the text that the range
    /// covers in `input`.
    pub fn new(location: Loc, input: &Input) -> (r: Comment)
        ensures
            r.location == location,
            r.kind == comment_kind_of(input.bytes(), location),
    {
        let kind = match input.substr_at(location.begin, location.end) {
            Some(source) => {
                if starts_with(source, "#".as_bytes()) {
                    CommentType::Inline
                } else if starts_with(source, "=begin".as_bytes()) {
                    CommentType::Document
                } else {
                    CommentType::Unknown
                }
            },
            None => CommentType::Unknown,
        };
        Comment { location, kind }
    }
}

} // verus!
