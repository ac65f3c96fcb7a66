//! The `key: value` pairs of a magic comment.

use vstd::prelude::*;
use vstd::string::StringSliceAdditionalSpecFns;
use crate::ascii::{
    is_space, byte_is_space, BACKSLASH, COLON, DASH, DOUBLE_QUOTE, SEMICOLON, SINGLE_QUOTE,
    UNDERSCORE,
};
use crate::lexer::buffer::Lexer;
use crate::loc::Loc;
use crate::source::magic_comment::{MagicComment, MagicCommentKind};

verus! {

/// The classes of bytes that the scan of a magic comment runs over.
#[derive(Clone, Copy, PartialEq, Eq, Structural)]
pub enum ByteClass {
    /// White space.
    Space,
    /// What may stand before a key: white space, quotes, `:` and `;`.
    Lead,
    /// What a key is made of: anything that is not of class `Lead`.
    Key,
    /// What an unquoted value is made of: anything but `"`, `;` and white
    /// space.
    Value,
    /// What may stand behind a value inside `-*-` markers: `;` and white
    /// space.
    Trailer,
}

/// True for the quotes, `:` and `;`.
pub open spec fn is_punctuation(b: u8) -> bool {
    b == SINGLE_QUOTE || b == DOUBLE_QUOTE || b == COLON || b == SEMICOLON
}

/// True when byte `b` is of class `class`.
pub open spec fn in_class(class: ByteClass, b: u8) -> bool {
    match class {
        ByteClass::Space => is_space(b),
        ByteClass::Lead => is_punctuation(b) || is_space(b),
        ByteClass::Key => !is_punctuation(b) && !is_space(b),
        ByteClass::Value => b != DOUBLE_QUOTE && b != SEMICOLON && !is_space(b),
        ByteClass::Trailer => b == SEMICOLON || is_space(b),
    }
}

/// The first offset at or behind `from` that is not inside `from..to`, or not
/// inside the buffer, or holds a byte that is not of class `class`.
pub open spec fn skip_class(bytes: Seq<u8>, from: int, to: int, class: ByteClass) -> int
    decreases to - from,
{
    if 0 <= from < to && from < bytes.len() && in_class(class, bytes[from]) {
        skip_class(bytes, from + 1, to, class)
    } else {
        from
    }
}

/// Where the quoted value that begins at `from` ends: the offset of the
/// first `"` that no backslash stands before, or `to` when the value is not
/// closed. A backslash takes the byte behind it along.
pub open spec fn quoted_end(bytes: Seq<u8>, from: int, to: int) -> int
    decreases to - from,
{
    if 0 <= from < to && from < bytes.len() && bytes[from] != DOUBLE_QUOTE {
        if bytes[from] == BACKSLASH && from + 1 < to {
            quoted_end(bytes, from + 2, to)
        } else {
            quoted_end(bytes, from + 1, to)
        }
    } else {
        from
    }
}

/// `skip_class` never goes backwards, and stays inside `from..to` when it
/// starts there.
pub proof fn lemma_skip_class_bounds(bytes: Seq<u8>, from: int, to: int, class: ByteClass)
    ensures
        from <= skip_class(bytes, from, to, class),
        from <= to ==> skip_class(bytes, from, to, class) <= to,
    decreases to - from,
{
    if 0 <= from < to && from < bytes.len() && in_class(class, bytes[from]) {
        lemma_skip_class_bounds(bytes, from + 1, to, class);
    }
}

/// `skip_class` stops at the first offset that ends the run: every byte
/// from `from` up to the result lies inside the buffer and is of the class,
/// and the result is `to`, or the end of the buffer, or an offset whose byte
/// is not of the class.
pub proof fn lemma_skip_class_is_first(bytes: Seq<u8>, from: int, to: int, class: ByteClass)
    requires
        0 <= from <= to,
    ensures
        ({
            let r = skip_class(bytes, from, to, class);
            &&& from <= r <= to
            &&& r == from || r <= bytes.len()
            &&& forall|k: int| from <= k < r ==> in_class(class, #[trigger] bytes[k])
            &&& r == to || r >= bytes.len() || !in_class(class, bytes[r])
        }),
    decreases to - from,
{
    if from < to && from < bytes.len() && in_class(class, bytes[from]) {
        lemma_skip_class_is_first(bytes, from + 1, to, class);
    }
}

/// `quoted_end` never goes backwards, and stays inside `from..to` when it
/// starts there.
pub proof fn lemma_quoted_end_bounds(bytes: Seq<u8>, from: int, to: int)
    ensures
        from <= quoted_end(bytes, from, to),
        from <= to ==> quoted_end(bytes, from, to) <= to,
    decreases to - from,
{
    if 0 <= from < to && from < bytes.len() && bytes[from] != DOUBLE_QUOTE {
        if bytes[from] == BACKSLASH && from + 1 < to {
            lemma_quoted_end_bounds(bytes, from + 2, to);
        } else {
            lemma_quoted_end_bounds(bytes, from + 1, to);
        }
    }
}

/// A key as it is compared: every `-` replaced by `_`.
pub open spec fn normalized_key(key: Seq<u8>) -> Seq<u8> {
    key.map_values(|b: u8| if b == DASH { UNDERSCORE } else { b })
}

/// The directive that a key names, if it names one. Keys are compared
/// letter for letter, with `-` taken for `_`; `coding` and `encoding` name
/// the same directive.
pub open spec fn directive_kind(key: Seq<u8>) -> Option<MagicCommentKind> {
    let name = normalized_key(key);
    if name == "coding".spec_bytes() || name == "encoding".spec_bytes() {
        Some(MagicCommentKind::Encoding)
    } else if name == "frozen_string_literal".spec_bytes() {
        Some(MagicCommentKind::FrozenStringLiteral)
    } else if name == "warn_indent".spec_bytes() {
        Some(MagicCommentKind::WarnIndent)
    } else if name == "shareable_constant_value".spec_bytes() {
        Some(MagicCommentKind::ShareableConstantValue)
    } else {
        None
    }
}

/// The parts of the `key: value` pair that the scan finds from offset `pos`.
pub struct PairOffsets {
    /// Where the key begins.
    pub key_begin: int,
    /// Where the key ends.
    pub key_end: int,
    /// The first offset behind the key that holds no white space: where a
    /// `:` has to stand.
    pub colon: int,
    /// The first offset behind the `:` that holds no white space.
    pub value_at: int,
    /// Where the value begins: behind the opening `"` when it is quoted.
    pub value_begin: int,
    /// Where the value ends.
    pub value_end: int,
    /// Where the scan goes on: behind the value, its closing `"` and what
    /// may trail it.
    pub next: int,
}

/// The pair that the scan of `pos..end` finds first. The offsets behind
/// `colon` have a meaning only when a `:` stands at `colon`, and those
/// behind `value_at` only when `value_at` lies before `end`.
pub open spec fn pair_at(bytes: Seq<u8>, pos: int, end: int, indicator: bool) -> PairOffsets {
    let key_begin = skip_class(bytes, pos, end, ByteClass::Lead);
    let key_end = skip_class(bytes, key_begin, end, ByteClass::Key);
    let colon = skip_class(bytes, key_end, end, ByteClass::Space);
    let value_at = skip_class(bytes, colon + 1, end, ByteClass::Space);
    let quoted = 0 <= value_at < bytes.len() && bytes[value_at] == DOUBLE_QUOTE;
    let value_begin = if quoted {
        value_at + 1
    } else {
        value_at
    };
    let value_end = if quoted {
        quoted_end(bytes, value_begin, end)
    } else {
        skip_class(bytes, value_begin, end, ByteClass::Value)
    };
    let after = if quoted && value_end < end {
        value_end + 1
    } else {
        value_end
    };
    let next = skip_class(
        bytes,
        after,
        end,
        if indicator {
            ByteClass::Trailer
        } else {
            ByteClass::Space
        },
    );
    PairOffsets { key_begin, key_end, colon, value_at, value_begin, value_end, next }
}

/// The offsets of a pair are in order and inside `pos..end`, and the scan
/// has moved on when it reaches `colon`.
pub proof fn lemma_pair_bounds(bytes: Seq<u8>, pos: int, end: int, indicator: bool)
    requires
        0 <= pos < end <= bytes.len(),
    ensures
        ({
            let p = pair_at(bytes, pos, end, indicator);
            &&& pos <= p.key_begin <= p.key_end <= p.colon <= end
            &&& pos < p.colon
            &&& p.colon < end ==> {
                &&& p.colon < p.value_at <= end
                &&& p.value_at < end ==> p.value_at <= p.value_begin <= p.value_end <= p.next
                    <= end
            }
        }),
{
    let p = pair_at(bytes, pos, end, indicator);
    lemma_skip_class_bounds(bytes, pos + 1, end, ByteClass::Lead);
    lemma_skip_class_bounds(bytes, pos + 1, end, ByteClass::Key);
    lemma_skip_class_bounds(bytes, pos, end, ByteClass::Lead);
    lemma_skip_class_bounds(bytes, p.key_begin, end, ByteClass::Key);
    lemma_skip_class_bounds(bytes, p.key_end, end, ByteClass::Space);
    if p.colon < end {
        lemma_skip_class_bounds(bytes, p.colon + 1, end, ByteClass::Space);
        if p.value_at < end {
            lemma_quoted_end_bounds(bytes, p.value_begin, end);
            lemma_skip_class_bounds(bytes, p.value_begin, end, ByteClass::Value);
            let quoted = bytes[p.value_at] == DOUBLE_QUOTE;
            let after = if quoted && p.value_end < end {
                p.value_end + 1
            } else {
                p.value_end
            };
            lemma_skip_class_bounds(bytes, after, end, ByteClass::Trailer);
            lemma_skip_class_bounds(bytes, after, end, ByteClass::Space);
        }
    }
}

/// The magic comment that a pair gives, if its key names a directive.
pub open spec fn directive_of(bytes: Seq<u8>, p: PairOffsets) -> Seq<MagicComment> {
    match directive_kind(bytes.subrange(p.key_begin, p.key_end)) {
        Some(kind) => seq![
            MagicComment {
                kind,
                key_l: Loc { begin: p.key_begin as usize, end: p.key_end as usize },
                value_l: Loc { begin: p.value_begin as usize, end: p.value_end as usize },
            },
        ],
        None => Seq::empty(),
    }
}

/// What the scan of `pos..end` makes of the pairs `key: value` that stand
/// there: the directives found, in their order, and whether the scan ran to
/// the end of the range.
///
/// Each round reads one pair as `pair_at` says. The scan is over when the
/// range ends before the `:` or before the value. Where something else
/// stands in place of the `:`, a scan inside `-*-` markers (`indicator`)
/// goes on from there, and a scan outside them gives up. Outside markers a
/// pair must also be the last thing in the range: if anything but white
/// space follows it, the scan gives up before it takes the pair.
pub open spec fn directives(bytes: Seq<u8>, pos: int, end: int, indicator: bool) -> (
    Seq<MagicComment>,
    bool,
)
    decreases end - pos,
{
    if 0 <= pos < end <= bytes.len() {
        let p = pair_at(bytes, pos, end, indicator);
        if p.colon >= end {
            (Seq::empty(), true)
        } else if bytes[p.colon] != COLON {
            if indicator && pos < p.colon {
                directives(bytes, p.colon, end, indicator)
            } else {
                (Seq::empty(), false)
            }
        } else if p.value_at >= end {
            (Seq::empty(), true)
        } else if !indicator && p.next < end {
            (Seq::empty(), false)
        } else if pos < p.next <= end {
            let rest = directives(bytes, p.next, end, indicator);
            (directive_of(bytes, p) + rest.0, rest.1)
        } else {
            (directive_of(bytes, p), true)
        }
    } else {
        (Seq::empty(), true)
    }
}

/// True when the ranges of `found` lie in `pos..end`, one directive after
/// another, in each the key before the value.
pub open spec fn in_order(found: Seq<MagicComment>, pos: int, end: int) -> bool {
    &&& forall|i: int|
        0 <= i < found.len() ==> {
            let d = #[trigger] found[i];
            pos <= d.key_l.begin <= d.key_l.end <= d.value_l.begin <= d.value_l.end <= end
        }
    &&& forall|i: int, j: int|
        0 <= i < j < found.len() ==> (#[trigger] found[i]).value_l.end <= (
        #[trigger] found[j]).key_l.begin
}

/// The directives that a scan finds stand in the range that was scanned, in
/// their order and without overlap, and each holds the offsets of its pair.
pub proof fn lemma_directives_in_order(bytes: Seq<u8>, pos: int, end: int, indicator: bool)
    requires
        bytes.len() <= usize::MAX,
    ensures
        in_order(directives(bytes, pos, end, indicator).0, pos, end),
    decreases end - pos,
{
    if 0 <= pos < end <= bytes.len() {
        let p = pair_at(bytes, pos, end, indicator);
        lemma_pair_bounds(bytes, pos, end, indicator);
        if p.colon >= end {
        } else if bytes[p.colon] != COLON {
            if indicator && pos < p.colon {
                lemma_directives_in_order(bytes, p.colon, end, indicator);
            }
        } else if p.value_at >= end {
        } else if !indicator && p.next < end {
        } else if pos < p.next <= end {
            lemma_directives_in_order(bytes, p.next, end, indicator);
            let rest = directives(bytes, p.next, end, indicator).0;
            let first = directive_of(bytes, p);
            let all = first + rest;
            assert forall|i: int| 0 <= i < all.len() implies {
                let d = #[trigger] all[i];
                pos <= d.key_l.begin <= d.key_l.end <= d.value_l.begin <= d.value_l.end <= end
            } by {
                if i >= first.len() {
                    assert(all[i] == rest[i - first.len()]);
                }
            }
            assert forall|i: int, j: int| 0 <= i < j < all.len() implies (
            #[trigger] all[i]).value_l.end <= (#[trigger] all[j]).key_l.begin by {
                assert(all[j] == rest[j - first.len()]);
                if i >= first.len() {
                    assert(all[i] == rest[i - first.len()]);
                }
            }
        }
    }
}

/// A scan that gives up has taken no directive.
pub proof fn lemma_given_up_finds_nothing(bytes: Seq<u8>, pos: int, end: int, indicator: bool)
    ensures
        !directives(bytes, pos, end, indicator).1 ==> directives(bytes, pos, end, indicator).0.len()
            == 0,
        indicator ==> directives(bytes, pos, end, indicator).1,
    decreases end - pos,
{
    if 0 <= pos < end <= bytes.len() {
        let p = pair_at(bytes, pos, end, indicator);
        lemma_pair_bounds(bytes, pos, end, indicator);
        if p.colon >= end {
        } else if bytes[p.colon] != COLON {
            if indicator && pos < p.colon {
                lemma_given_up_finds_nothing(bytes, p.colon, end, indicator);
            }
        } else if p.value_at >= end {
        } else if !indicator && p.next < end {
        } else if pos < p.next <= end {
            lemma_given_up_finds_nothing(bytes, p.next, end, indicator);
        }
    }
}

impl Lexer {
    /// Runs over the bytes of class `class` from offset `from`, inside
    /// `from..to` and inside the source, and returns where the run ends.
    pub fn skip(&self, from: usize, to: usize, class: ByteClass) -> (r: usize)
        ensures
            r == skip_class(self.bytes(), from as int, to as int, class),
            from <= r,
            from <= to ==> r <= to,
    {
        let mut pos: usize = from;
        while pos < to
            invariant
                from <= pos,
                from <= to ==> pos <= to,
                skip_class(self.bytes(), pos as int, to as int, class) == skip_class(
                    self.bytes(),
                    from as int,
                    to as int,
                    class,
                ),
            decreases to - pos,
        {
            let b: u8 = match self.char_at(pos) {
                Some(b) => b,
                None => {
                    return pos;
                },
            };
            let inside = match class {
                ByteClass::Space => byte_is_space(b),
                ByteClass::Lead => b == SINGLE_QUOTE || b == DOUBLE_QUOTE || b == COLON || b
                    == SEMICOLON || byte_is_space(b),
                ByteClass::Key => !(b == SINGLE_QUOTE || b == DOUBLE_QUOTE || b == COLON || b
                    == SEMICOLON) && !byte_is_space(b),
                ByteClass::Value => b != DOUBLE_QUOTE && b != SEMICOLON && !byte_is_space(b),
                ByteClass::Trailer => b == SEMICOLON || byte_is_space(b),
            };
            if !inside {
                return pos;
            }
            pos = pos + 1;
        }
        pos
    }

    /// Runs over a quoted value from offset `from`, behind its opening `"`,
    /// and returns where the value ends, as `quoted_end` says.
    pub fn skip_quoted(&self, from: usize, to: usize) -> (r: usize)
        ensures
            r == quoted_end(self.bytes(), from as int, to as int),
            from <= r,
            from <= to ==> r <= to,
    {
        let mut pos: usize = from;
        while pos < to
            invariant
                from <= pos,
                from <= to ==> pos <= to,
                quoted_end(self.bytes(), pos as int, to as int) == quoted_end(
                    self.bytes(),
                    from as int,
                    to as int,
                ),
            decreases to - pos,
        {
            let b: u8 = match self.char_at(pos) {
                Some(b) => b,
                None => {
                    return pos;
                },
            };
            if b == DOUBLE_QUOTE {
                return pos;
            }
            if b == BACKSLASH && to - pos > 1 {
                pos = pos + 2;
            } else {
                pos = pos + 1;
            }
        }
        pos
    }

    /// Whether the bytes at `begin..end` read `known`.
    pub fn text_is(&self, begin: usize, end: usize, known: &str) -> (r: bool)
        requires
            begin <= end <= self.bytes().len(),
        ensures
            r == (self.bytes().subrange(begin as int, end as int) == known.spec_bytes()),
    {
        let known_bytes = known.as_bytes();
        let ghost text = self.bytes().subrange(begin as int, end as int);
        if known_bytes.len() != end - begin {
            assert(text.len() != known.spec_bytes().len());
            return false;
        }
        let mut i: usize = 0;
        while i < known_bytes.len()
            invariant
                begin <= end <= self.bytes().len(),
                known_bytes@ == known.spec_bytes(),
                known_bytes@.len() == end - begin,
                text == self.bytes().subrange(begin as int, end as int),
                i <= known_bytes@.len(),
                forall|k: int| 0 <= k < i ==> text[k] == known_bytes@[k],
            decreases known_bytes@.len() - i,
        {
            if self.buffer.input.unchecked_byte_at(begin + i) != known_bytes[i] {
                assert(text[i as int] != known_bytes@[i as int]);
                return false;
            }
            i = i + 1;
        }
        assert(text =~= known_bytes@);
        true
    }

    /// Whether the key at `begin..end`, with `-` taken for `_`, reads
    /// `known`.
    pub fn key_is(&self, begin: usize, end: usize, known: &str) -> (r: bool)
        requires
            begin <= end <= self.bytes().len(),
        ensures
            r == (normalized_key(self.bytes().subrange(begin as int, end as int))
                == known.spec_bytes()),
    {
        let known_bytes = known.as_bytes();
        let ghost key = normalized_key(self.bytes().subrange(begin as int, end as int));
        if known_bytes.len() != end - begin {
            assert(key.len() != known.spec_bytes().len());
            return false;
        }
        let mut i: usize = 0;
        while i < known_bytes.len()
            invariant
                begin <= end <= self.bytes().len(),
                known_bytes@ == known.spec_bytes(),
                known_bytes@.len() == end - begin,
                key == normalized_key(self.bytes().subrange(begin as int, end as int)),
                i <= known_bytes@.len(),
                forall|k: int| 0 <= k < i ==> key[k] == known_bytes@[k],
            decreases known_bytes@.len() - i,
        {
            let b: u8 = self.buffer.input.unchecked_byte_at(begin + i);
            let n: u8 = if b == DASH {
                UNDERSCORE
            } else {
                b
            };
            if n != known_bytes[i] {
                assert(key[i as int] != known_bytes@[i as int]);
                return false;
            }
            i = i + 1;
        }
        assert(key =~= known_bytes@);
        true
    }

    /// The directive that the key at `begin..end` names, if it names one.
    pub fn key_kind(&self, begin: usize, end: usize) -> (r: Option<MagicCommentKind>)
        requires
            begin <= end <= self.bytes().len(),
        ensures
            r == directive_kind(self.bytes().subrange(begin as int, end as int)),
    {
        if self.key_is(begin, end, "coding") || self.key_is(begin, end, "encoding") {
            Some(MagicCommentKind::Encoding)
        } else if self.key_is(begin, end, "frozen_string_literal") {
            Some(MagicCommentKind::FrozenStringLiteral)
        } else if self.key_is(begin, end, "warn_indent") {
            Some(MagicCommentKind::WarnIndent)
        } else if self.key_is(begin, end, "shareable_constant_value") {
            Some(MagicCommentKind::ShareableConstantValue)
        } else {
            None
        }
    }

    /// Scans `pos..end` for pairs `key: value` and returns the directives
    /// found with whether the scan ran to the end, as `directives` says.
    pub fn scan_directives(&self, pos: usize, end: usize, indicator: bool) -> (r: (
        Vec<MagicComment>,
        bool,
    ))
        requires
            end <= self.bytes().len(),
        ensures
            r.0@ == directives(self.bytes(), pos as int, end as int, indicator).0,
            r.1 == directives(self.bytes(), pos as int, end as int, indicator).1,
    {
        let ghost bytes = self.bytes();
        let ghost whole = directives(bytes, pos as int, end as int, indicator);
        let mut found: Vec<MagicComment> = Vec::new();
        let mut cur: usize = pos;
        while cur < end
            invariant
                bytes == self.bytes(),
                end <= bytes.len(),
                whole == directives(bytes, pos as int, end as int, indicator),
                whole.0 == found@ + directives(bytes, cur as int, end as int, indicator).0,
                whole.1 == directives(bytes, cur as int, end as int, indicator).1,
            decreases end - cur,
        {
            let ghost p = pair_at(bytes, cur as int, end as int, indicator);
            proof {
                lemma_pair_bounds(bytes, cur as int, end as int, indicator);
            }
            let key_begin = self.skip(cur, end, ByteClass::Lead);
            let key_end = self.skip(key_begin, end, ByteClass::Key);
            let colon = self.skip(key_end, end, ByteClass::Space);
            if colon >= end {
                assert(found@ + Seq::<MagicComment>::empty() =~= found@);
                return (found, true);
            }
            if self.buffer.input.unchecked_byte_at(colon) != COLON {
                if !indicator {
                    assert(found@ + Seq::<MagicComment>::empty() =~= found@);
                    return (found, false);
                }
                cur = colon;
                continue ;
            }
            let value_at = self.skip(colon + 1, end, ByteClass::Space);
            if value_at >= end {
                assert(found@ + Seq::<MagicComment>::empty() =~= found@);
                return (found, true);
            }
            let value_begin: usize;
            let value_end: usize;
            let after: usize;
            if self.buffer.input.unchecked_byte_at(value_at) == DOUBLE_QUOTE {
                value_begin = value_at + 1;
                value_end = self.skip_quoted(value_begin, end);
                after = if value_end < end {
                    value_end + 1
                } else {
                    value_end
                };
            } else {
                value_begin = value_at;
                value_end = self.skip(value_begin, end, ByteClass::Value);
                after = value_end;
            }
            let next = if indicator {
                self.skip(after, end, ByteClass::Trailer)
            } else {
                self.skip(after, end, ByteClass::Space)
            };
            if !indicator && next < end {
                assert(found@ + Seq::<MagicComment>::empty() =~= found@);
                return (found, false);
            }
            let ghost before = found@;
            match self.key_kind(key_begin, key_end) {
                Some(kind) => {
                    found.push(
                        MagicComment::new(
                            kind,
                            Loc::new(key_begin, key_end),
                            Loc::new(value_begin, value_end),
                        ),
                    );
                },
                None => {},
            }
            proof {
                assert(found@ =~= before + directive_of(bytes, p));
                let rest = directives(bytes, next as int, end as int, indicator);
                assert(before + (directive_of(bytes, p) + rest.0) =~= (before + directive_of(
                    bytes,
                    p,
                )) + rest.0);
            }
            cur = next;
        }
        assert(found@ + Seq::<MagicComment>::empty() =~= found@);
        (found, true)
    }
}

} // verus!
