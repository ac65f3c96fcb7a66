//! Magic comments: `# key: value`, or `# -*- key: value; key: value -*-`.

use vstd::prelude::*;
use crate::ascii::{byte_is_space, is_space};
use crate::lexer::buffer::{byte_at, Lexer};
use crate::lexer::directives::{directives, lemma_given_up_finds_nothing};
use crate::lexer::encoding::{encoding_applied, lemma_encoding_keeps_diagnostics, SourceState};
use crate::lexer::file_encoding::file_encoding_loc;
use crate::lexer::marker::{lemma_marker_end_is_first, marker_end};
use crate::source::decoder::Decoder;
use crate::source::magic_comment::{MagicComment, MagicCommentKind};

verus! {

/// What the scan of the `len` bytes from offset `str_` finds: the directives
/// of the comment, in their order, and whether the bytes were a magic
/// comment to their end.
///
/// A comment of 7 bytes or fewer is none. Where a marker `-*-` stands in the
/// comment, a second one must follow it, and the pairs are read between the
/// two; else they are read in the whole comment, as far as it lies inside
/// the source.
pub open spec fn magic_comment_scan(bytes: Seq<u8>, str_: int, len: int) -> (
    Seq<MagicComment>,
    bool,
) {
    let to = str_ + len;
    let begin = marker_end(bytes, str_, to);
    let end = marker_end(bytes, begin, to);
    if len <= 7 {
        (Seq::empty(), false)
    } else if begin == 0 {
        directives(
            bytes,
            str_,
            if to <= bytes.len() {
                to
            } else {
                bytes.len() as int
            },
            false,
        )
    } else if end == 0 {
        (Seq::empty(), false)
    } else {
        directives(bytes, begin, end - 3, true)
    }
}

/// A text that is no magic comment to its end gives no directive.
pub proof fn lemma_no_magic_comment_finds_nothing(bytes: Seq<u8>, str_: int, len: int)
    ensures
        !magic_comment_scan(bytes, str_, len).1 ==> magic_comment_scan(bytes, str_, len).0.len()
            == 0,
{
    let to = str_ + len;
    let begin = marker_end(bytes, str_, to);
    let end = marker_end(bytes, begin, to);
    let limit = if to <= bytes.len() {
        to
    } else {
        bytes.len() as int
    };
    lemma_given_up_finds_nothing(bytes, str_, limit, false);
    lemma_given_up_finds_nothing(bytes, begin, end - 3, true);
}

/// True when `after` is reached from `before` by applying, one after
/// another, the encodings that the directives of kind `Encoding` in `found`
/// name, each as `encoding_applied` says; the other directives change
/// nothing.
pub open spec fn encodings_applied(
    before: SourceState,
    after: SourceState,
    decoder: Option<Decoder>,
    found: Seq<MagicComment>,
) -> bool
    decreases found.len(),
{
    if found.len() == 0 {
        after == before
    } else if found.last().kind != MagicCommentKind::Encoding {
        encodings_applied(before, after, decoder, found.drop_last())
    } else {
        exists|mid: SourceState|
            {
                &&& encodings_applied(before, mid, decoder, found.drop_last())
                &&& #[trigger] encoding_applied(mid, after, decoder, found.last().value_l)
            }
    }
}

/// Diagnostics are only ever added at the end: whatever encodings are
/// applied, the diagnostics from before are the first of those after.
pub proof fn lemma_diagnostics_are_kept(
    before: SourceState,
    after: SourceState,
    decoder: Option<Decoder>,
    found: Seq<MagicComment>,
)
    requires
        encodings_applied(before, after, decoder, found),
    ensures
        before.diagnostics.is_prefix_of(after.diagnostics),
    decreases found.len(),
{
    if found.len() == 0 {
    } else if found.last().kind != MagicCommentKind::Encoding {
        lemma_diagnostics_are_kept(before, after, decoder, found.drop_last());
    } else {
        let mid = choose|mid: SourceState|
            {
                &&& encodings_applied(before, mid, decoder, found.drop_last())
                &&& #[trigger] encoding_applied(mid, after, decoder, found.last().value_l)
            };
        lemma_diagnostics_are_kept(before, mid, decoder, found.drop_last());
        lemma_encoding_keeps_diagnostics(mid, after, decoder, found.last().value_l);
    }
}

/// Without a directive of kind `Encoding`, applying the encodings changes
/// nothing: the source and the diagnostics stay as they are.
pub proof fn lemma_no_encoding_no_change(
    before: SourceState,
    after: SourceState,
    decoder: Option<Decoder>,
    found: Seq<MagicComment>,
)
    requires
        encodings_applied(before, after, decoder, found),
        forall|i: int|
            0 <= i < found.len() ==> (#[trigger] found[i]).kind != MagicCommentKind::Encoding,
    ensures
        after == before,
    decreases found.len(),
{
    if found.len() > 0 {
        assert(found.last() == found[found.len() - 1]);
        let rest = found.drop_last();
        assert forall|i: int| 0 <= i < rest.len() implies (#[trigger] rest[i]).kind
            != MagicCommentKind::Encoding by {
            assert(rest[i] == found[i]);
        }
        lemma_no_encoding_no_change(before, after, decoder, rest);
    }
}

impl Lexer {
    /// True when the lexer stands in a comment at the top of the file: it is
    /// in the first line, or in the second behind a `#!` line, and only
    /// white space stands between the start of the line and the byte before
    /// the cursor.
    pub open spec fn at_top(&self) -> bool {
        &&& self.buffer.line_count == (if self.has_shebang {
            2int
        } else {
            1int
        })
        &&& forall|i: int|
            self.buffer.pbeg <= i < self.buffer.pcur - 1 ==> match #[trigger] byte_at(
                self.bytes(),
                i,
            ) {
                Some(b) => is_space(b),
                None => false,
            }
    }

    /// Whether the comment that the lexer has just entered is the first
    /// thing in the file, as `at_top` says. The cursor stands behind the
    /// `#`.
    pub fn comment_at_top(&self) -> (r: bool)
        requires
            self.buffer.pcur > 0,
        ensures
            r == self.at_top(),
    {
        let mut ptr: usize = self.buffer.pbeg;
        let ptr_end: usize = self.buffer.pcur - 1;
        let expected: usize = if self.has_shebang {
            2
        } else {
            1
        };
        if self.buffer.line_count != expected {
            return false;
        }
        while ptr < ptr_end
            invariant
                self.buffer.pbeg <= ptr,
                ptr_end == self.buffer.pcur - 1,
                forall|i: int|
                    self.buffer.pbeg <= i < ptr ==> match #[trigger] byte_at(self.bytes(), i) {
                        Some(b) => is_space(b),
                        None => false,
                    },
            decreases ptr_end - ptr,
        {
            match self.char_at(ptr) {
                Some(b) => {
                    if !byte_is_space(b) {
                        return false;
                    }
                },
                None => {
                    return false;
                },
            }
            ptr = ptr + 1;
        }
        true
    }

    /// Scans the `len` bytes from offset `str_`, the text of a comment
    /// behind its `#`, and returns the directives found with whether the
    /// text was a magic comment to its end, as `magic_comment_scan` says.
    pub fn scan_magic_comment(&self, str_: usize, len: usize) -> (r: (Vec<MagicComment>, bool))
        ensures
            r.0@ == magic_comment_scan(self.bytes(), str_ as int, len as int).0,
            r.1 == magic_comment_scan(self.bytes(), str_ as int, len as int).1,
    {
        if len <= 7 {
            return (Vec::new(), false);
        }
        let size: usize = self.buffer.input.len();
        let begin: usize = self.magic_comment_marker(str_, len);
        if begin == 0 {
            let end: usize = if str_ >= size || len > size - str_ {
                size
            } else {
                str_ + len
            };
            assert(directives(self.bytes(), str_ as int, end as int, false) == directives(
                self.bytes(),
                str_ as int,
                if str_ + len <= size {
                    str_ + len
                } else {
                    size as int
                },
                false,
            ));
            return self.scan_directives(str_, end, false);
        }
        proof {
            lemma_marker_end_is_first(self.bytes(), str_ as int, str_ + len);
        }
        let end: usize = self.magic_comment_marker(begin, len - (begin - str_));
        if end == 0 {
            return (Vec::new(), false);
        }
        proof {
            lemma_marker_end_is_first(self.bytes(), begin as int, str_ + len);
        }
        self.scan_directives(begin, end - 3, true)
    }

    /// Reads the `len` bytes from offset `str_`, the text of a comment
    /// behind its `#`, as a magic comment. Every directive found is recorded
    /// as a magic comment, with the ranges of its key and its value in the
    /// source as it was scanned; for each directive of kind `Encoding` the
    /// source is then decoded anew, as `apply_encoding` does. A text that is
    /// no magic comment records nothing and reports nothing. The result says
    /// whether the text was a magic comment to its end.
    pub fn parser_magic_comment(&mut self, str_: usize, len: usize) -> (r: bool)
        ensures
            r == magic_comment_scan(old(self).bytes(), str_ as int, len as int).1,
            final(self).magic_comments@ == old(self).magic_comments@ + magic_comment_scan(
                old(self).bytes(),
                str_ as int,
                len as int,
            ).0,
            old(self).same_place(final(self)),
            encodings_applied(
                old(self).source_state(),
                final(self).source_state(),
                old(self).buffer.input.held_decoder(),
                magic_comment_scan(old(self).bytes(), str_ as int, len as int).0,
            ),
    {
        let (found, complete) = self.scan_magic_comment(str_, len);
        let ghost start = old(self).source_state();
        let ghost decoder = old(self).buffer.input.held_decoder();
        let mut i: usize = 0;
        assert(self.magic_comments@ + found@.subrange(0, 0) =~= self.magic_comments@);
        while i < found.len()
            invariant
                i <= found@.len(),
                old(self).same_place(self),
                decoder == old(self).buffer.input.held_decoder(),
                start == old(self).source_state(),
                self.magic_comments@ == old(self).magic_comments@ + found@.subrange(0, i as int),
                encodings_applied(
                    start,
                    self.source_state(),
                    decoder,
                    found@.subrange(0, i as int),
                ),
            decreases found@.len() - i,
        {
            let directive: MagicComment = found[i];
            let ghost mid = self.source_state();
            let ghost seen = found@.subrange(0, i as int);
            self.magic_comments.push(directive);
            match directive.kind {
                MagicCommentKind::Encoding => {
                    self.apply_encoding(directive.value_l);
                },
                _ => {},
            }
            proof {
                let now = found@.subrange(0, i + 1);
                assert(now.drop_last() =~= seen);
                assert(self.magic_comments@ =~= old(self).magic_comments@ + now);
                if directive.kind == MagicCommentKind::Encoding {
                    assert(encoding_applied(
                        mid,
                        self.source_state(),
                        decoder,
                        now.last().value_l,
                    ));
                }
            }
            i = i + 1;
        }
        assert(found@.subrange(0, i as int) =~= found@);
        complete
    }

    /// What `read_comment` leaves behind for a comment at the top of the
    /// file, whose text is the `len` bytes from offset `str_`: the
    /// directives of the text as magic comments, with their encodings
    /// applied; or, for a text that is no magic comment, the encoding that
    /// the plain form names in it, applied.
    pub open spec fn top_comment_read(before: &Lexer, after: &Lexer, str_: int, len: int) -> bool {
        let scan = magic_comment_scan(before.bytes(), str_, len);
        let decoder = before.buffer.input.held_decoder();
        &&& after.magic_comments@ == before.magic_comments@ + scan.0
        &&& if scan.1 {
            encodings_applied(before.source_state(), after.source_state(), decoder, scan.0)
        } else {
            match file_encoding_loc(before.bytes(), str_, str_ + len) {
                Some(loc) => encoding_applied(
                    before.source_state(),
                    after.source_state(),
                    decoder,
                    loc,
                ),
                None => after.source_state() == before.source_state(),
            }
        }
    }

    /// Reads the comment that the lexer has just entered: the cursor stands
    /// behind its `#`, and its text runs to the end of the line. Only a
    /// comment at the top of the file is read, as `at_top` says: it is taken
    /// as a magic comment, and where it is none, the plain form of an
    /// encoding comment is looked for in it. Any other comment changes
    /// nothing. The result says whether the comment stood at the top.
    pub fn read_comment(&mut self) -> (r: bool)
        requires
            old(self).buffer.pcur > 0,
        ensures
            r == old(self).at_top(),
            old(self).same_place(final(self)),
            if r {
                Self::top_comment_read(
                    old(self),
                    final(self),
                    old(self).buffer.pcur as int,
                    if old(self).buffer.pcur <= old(self).buffer.pend {
                        old(self).buffer.pend - old(self).buffer.pcur
                    } else {
                        0
                    },
                )
            } else {
                &&& final(self).magic_comments == old(self).magic_comments
                &&& final(self).source_state() == old(self).source_state()
            },
    {
        if !self.comment_at_top() {
            return false;
        }
        let str_: usize = self.buffer.pcur;
        let len: usize = if str_ <= self.buffer.pend {
            self.buffer.pend - str_
        } else {
            0
        };
        proof {
            lemma_no_magic_comment_finds_nothing(self.bytes(), str_ as int, len as int);
        }
        if !self.parser_magic_comment(str_, len) {
            assert(self.magic_comments@ =~= old(self).magic_comments@);
            self.set_file_encoding(str_, str_ + len);
            assert(self.magic_comments@ + Seq::<MagicComment>::empty() =~= self.magic_comments@);
        }
        true
    }
}

} // verus!
