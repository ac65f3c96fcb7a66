//! The plain form of an encoding comment: the word `coding`, a `:` or `=`,
//! and the name of the encoding, anywhere in a comment at the top of a file.

use vstd::prelude::*;
use vstd::string::StringSliceAdditionalSpecFns;
use crate::ascii::{
    byte_is_alnum, byte_is_space, is_alnum, is_space, COLON, DASH, EQUALS, UNDERSCORE,
};
use crate::lexer::buffer::{byte_at, Lexer};
use crate::lexer::directives::{skip_class, ByteClass};
use crate::lexer::encoding::encoding_applied;
use crate::loc::Loc;

verus! {

/// How far the search for `coding` moves on when the byte that would follow
/// the word is `b`: for a letter of the word, in either case, as far as
/// brings the byte behind that letter's word to the same place (6 for `c`, 5
/// for `o`, 4 for `d`, 3 for `i`, 2 for `n`, 1 for `g`); 0 for any other
/// byte.
pub open spec fn letter_shift(b: u8) -> int {
    if b == 67 || b == 99 {
        6
    } else if b == 79 || b == 111 {
        5
    } else if b == 68 || b == 100 {
        4
    } else if b == 73 || b == 105 {
        3
    } else if b == 78 || b == 110 {
        2
    } else if b == 71 || b == 103 {
        1
    } else {
        0
    }
}

/// True when the bytes `pos..pos + 6` read `coding`, in lower case.
pub open spec fn coding_at(bytes: Seq<u8>, pos: int) -> bool {
    0 <= pos && pos + 6 <= bytes.len() && bytes.subrange(pos, pos + 6) == "coding".spec_bytes()
}

/// The search for the word `coding` in `pos..send`. It looks at the byte six
/// places on: a letter of the word moves the search by `letter_shift`; a
/// `:`, a `=` or white space ends it when `coding` stands before that byte;
/// any other byte, and any end without the word, moves it six places on.
/// The result is the offset of the byte that ended the search, with whether
/// a `:` or `=` was met on the way; `None` when `send` is reached first.
pub open spec fn coding_search(bytes: Seq<u8>, pos: int, send: int, sep: bool) -> Option<
    (int, bool),
>
    decreases send - pos,
{
    if send - pos <= 6 {
        None
    } else {
        let c = byte_at(bytes, pos + 6);
        let shift = match c {
            Some(b) => letter_shift(b),
            None => 0,
        };
        if shift > 0 {
            coding_search(bytes, pos + shift, send, sep)
        } else {
            let is_sep = c == Some(EQUALS) || c == Some(COLON);
            let is_blank = match c {
                Some(b) => is_space(b),
                None => false,
            };
            if (is_sep || is_blank) && coding_at(bytes, pos) {
                Some((pos + 6, sep || is_sep))
            } else {
                coding_search(bytes, pos + 6, send, sep || is_sep)
            }
        }
    }
}

/// True when `coding` stands right before offset `q` and a `:`, a `=` or
/// white space stands at `q`.
pub open spec fn coding_ends_at(bytes: Seq<u8>, q: int) -> bool {
    coding_at(bytes, q - 6) && match byte_at(bytes, q) {
        Some(b) => b == EQUALS || b == COLON || is_space(b),
        None => false,
    }
}

/// The bytes of the word `coding`.
proof fn lemma_coding_bytes()
    ensures
        "coding".spec_bytes() == seq![99u8, 111u8, 100u8, 105u8, 110u8, 103u8],
{
    reveal_strlit("coding");
    let word = "coding";
    assert(vstd::string::is_ascii(word));
    vstd::string::is_ascii_spec_bytes(word);
    assert(word.spec_bytes() =~= seq![99u8, 111u8, 100u8, 105u8, 110u8, 103u8]);
}

/// No `coding` with its byte behind it ends inside the offsets that the
/// search passes over in one step from `pos`.
proof fn lemma_coding_step(bytes: Seq<u8>, pos: int, k: int)
    requires
        0 <= pos,
        pos + 6 <= k,
        coding_ends_at(bytes, k),
    ensures
        match byte_at(bytes, pos + 6) {
            Some(b) => if letter_shift(b) > 0 {
                k >= pos + 6 + letter_shift(b)
            } else {
                k == pos + 6 || k >= pos + 12
            },
            None => false,
        },
{
    lemma_coding_bytes();
    let p = pos + 6;
    let word = bytes.subrange(k - 6, k);
    if k == p {
    } else if k < p + 6 {
        assert(word[p - (k - 6)] == bytes[p]);
    }
}

/// The search for `coding` misses nothing: what it finds is the first
/// offset from `pos + 6` on, before `send`, at which `coding` ends with a
/// `:`, a `=` or white space behind it; and when it finds nothing, there is
/// no such offset.
pub proof fn lemma_coding_search_first(bytes: Seq<u8>, pos: int, send: int, sep: bool)
    requires
        0 <= pos,
    ensures
        match coding_search(bytes, pos, send, sep) {
            Some((q, _)) => {
                &&& pos + 6 <= q < send
                &&& coding_ends_at(bytes, q)
                &&& forall|k: int| pos + 6 <= k < q ==> !coding_ends_at(bytes, k)
            },
            None => forall|k: int| pos + 6 <= k < send ==> !coding_ends_at(bytes, k),
        },
    decreases send - pos,
{
    if send - pos > 6 {
        let c = byte_at(bytes, pos + 6);
        let shift = match c {
            Some(b) => letter_shift(b),
            None => 0,
        };
        assert forall|k: int| pos + 6 <= k && coding_ends_at(bytes, k) implies (if shift > 0 {
            k >= pos + 6 + shift
        } else {
            k == pos + 6 || k >= pos + 12
        }) by {
            lemma_coding_step(bytes, pos, k);
        }
        if shift > 0 {
            lemma_coding_search_first(bytes, pos + shift, send, sep);
        } else {
            let is_sep = c == Some(EQUALS) || c == Some(COLON);
            let is_blank = match c {
                Some(b) => is_space(b),
                None => false,
            };
            if (is_sep || is_blank) && coding_at(bytes, pos) {
            } else {
                lemma_coding_search_first(bytes, pos + 6, send, sep || is_sep);
            }
        }
    }
}

/// Where the name of the encoding begins, for a search that ended at `pos`:
/// behind the white space that follows `pos`, and, when no `:` or `=` was
/// met yet (`sep`), behind one of them and one more byte and the white space
/// that follows. `None` when `send` is reached first or no `:` or `=` is
/// there.
pub open spec fn name_begin(bytes: Seq<u8>, pos: int, send: int, sep: bool) -> Option<int>
    decreases send - pos,
{
    let p = skip_class(bytes, pos + 1, send, ByteClass::Space);
    if p >= send || p <= pos {
        None
    } else if sep {
        Some(p)
    } else if byte_at(bytes, p) == Some(EQUALS) || byte_at(bytes, p) == Some(COLON) {
        name_begin(bytes, p + 1, send, true)
    } else {
        None
    }
}

/// True for the bytes that the name of an encoding is made of: `-`, `_`,
/// letters and digits.
pub open spec fn is_name_byte(b: u8) -> bool {
    b == DASH || b == UNDERSCORE || is_alnum(b)
}

/// Where the name that begins at `pos` ends: behind the last of the bytes
/// `-`, `_`, letters and digits that follow one another from `pos` inside
/// `pos..send` and inside the buffer.
pub open spec fn name_end(bytes: Seq<u8>, pos: int, send: int) -> int
    decreases send - pos,
{
    if 0 <= pos < send && pos < bytes.len() && is_name_byte(bytes[pos]) {
        name_end(bytes, pos + 1, send)
    } else {
        pos
    }
}

/// The name ends inside its range and inside the buffer, it is made of
/// `-`, `_`, letters and digits only, and it is not cut short: it ends with
/// the range, with the buffer, or before a byte of another kind.
pub proof fn lemma_name_end_is_first(bytes: Seq<u8>, pos: int, send: int)
    requires
        0 <= pos <= send,
    ensures
        ({
            let r = name_end(bytes, pos, send);
            &&& pos <= r <= send
            &&& r == pos || r <= bytes.len()
            &&& forall|k: int| pos <= k < r ==> is_name_byte(#[trigger] bytes[k])
            &&& r == send || r >= bytes.len() || !is_name_byte(bytes[r])
        }),
    decreases send - pos,
{
    if pos < send && pos < bytes.len() && is_name_byte(bytes[pos]) {
        lemma_name_end_is_first(bytes, pos + 1, send);
    }
}

/// The range of the encoding's name that the plain form gives in
/// `str_..send`: `coding_search` finds the word, `name_begin` the start of
/// the name, `name_end` its end, inside the range. `None` when any of them
/// fails or the name would begin outside the buffer.
pub open spec fn file_encoding_loc(bytes: Seq<u8>, str_: int, send: int) -> Option<Loc> {
    match coding_search(bytes, str_, send, false) {
        None => None,
        Some((pos, sep)) => match name_begin(bytes, pos, send, sep) {
            None => None,
            Some(begin) => if 0 <= begin <= bytes.len() {
                Some(Loc { begin: begin as usize, end: name_end(bytes, begin, send) as usize })
            } else {
                None
            },
        },
    }
}

/// `letter_shift`, computed.
fn shift_for(b: u8) -> (r: usize)
    ensures
        r == letter_shift(b),
{
    if b == 67 || b == 99 {
        6
    } else if b == 79 || b == 111 {
        5
    } else if b == 68 || b == 100 {
        4
    } else if b == 73 || b == 105 {
        3
    } else if b == 78 || b == 110 {
        2
    } else if b == 71 || b == 103 {
        1
    } else {
        0
    }
}

impl Lexer {
    /// Searches `str_..send` for the word `coding` as `coding_search` says.
    pub fn find_coding(&self, str_: usize, send: usize) -> (r: Option<(usize, bool)>)
        ensures
            match r {
                Some((pos, sep)) => coding_search(self.bytes(), str_ as int, send as int, false)
                    == Some((pos as int, sep)) && str_ < pos < send,
                None => coding_search(self.bytes(), str_ as int, send as int, false) is None,
            },
    {
        let ghost bytes = self.bytes();
        let ghost whole = coding_search(bytes, str_ as int, send as int, false);
        let mut pos: usize = str_;
        let mut sep: bool = false;
        loop
            invariant
                bytes == self.bytes(),
                whole == coding_search(bytes, str_ as int, send as int, false),
                whole == coding_search(bytes, pos as int, send as int, sep),
                str_ <= pos,
            decreases send - pos,
        {
            if send < pos || send - pos <= 6 {
                return None;
            }
            let next: usize = pos + 6;
            match self.char_at(next) {
                Some(b) => {
                    let shift: usize = shift_for(b);
                    if shift > 0 {
                        pos = pos + shift;
                    } else {
                        let is_sep: bool = b == EQUALS || b == COLON;
                        if is_sep {
                            sep = true;
                        }
                        if (is_sep || byte_is_space(b)) && self.text_is(pos, next, "coding") {
                            return Some((next, sep));
                        }
                        pos = next;
                    }
                },
                None => {
                    pos = next;
                },
            }
        }
    }

    /// Finds where the name of the encoding begins, as `name_begin` says.
    pub fn find_name_begin(&self, pos: usize, send: usize, sep: bool) -> (r: Option<usize>)
        requires
            pos < send,
        ensures
            match r {
                Some(begin) => name_begin(self.bytes(), pos as int, send as int, sep) == Some(
                    begin as int,
                ) && pos < begin < send,
                None => name_begin(self.bytes(), pos as int, send as int, sep) is None,
            },
    {
        let p: usize = self.skip(pos + 1, send, ByteClass::Space);
        if p >= send {
            return None;
        }
        if sep {
            return Some(p);
        }
        match self.char_at(p) {
            Some(b) => {
                if b != EQUALS && b != COLON {
                    return None;
                }
            },
            None => {
                return None;
            },
        }
        assert(name_begin(self.bytes(), pos as int, send as int, sep) == name_begin(
            self.bytes(),
            p + 1,
            send as int,
            true,
        ));
        if send - p <= 1 {
            return None;
        }
        let q: usize = self.skip(p + 2, send, ByteClass::Space);
        if q >= send {
            None
        } else {
            Some(q)
        }
    }

    /// Finds where the name that begins at `pos` ends, as `name_end` says.
    pub fn find_name_end(&self, pos: usize, send: usize) -> (r: usize)
        ensures
            r == name_end(self.bytes(), pos as int, send as int),
            pos <= r,
            pos <= send ==> r <= send,
            pos <= self.bytes().len() ==> r <= self.bytes().len(),
    {
        let mut cur: usize = pos;
        while cur < send
            invariant
                pos <= cur,
                pos <= send ==> cur <= send,
                pos <= self.bytes().len() ==> cur <= self.bytes().len(),
                name_end(self.bytes(), cur as int, send as int) == name_end(
                    self.bytes(),
                    pos as int,
                    send as int,
                ),
            decreases send - cur,
        {
            match self.char_at(cur) {
                Some(b) => {
                    if b == DASH || b == UNDERSCORE || byte_is_alnum(b) {
                        cur = cur + 1;
                    } else {
                        return cur;
                    }
                },
                None => {
                    return cur;
                },
            }
        }
        cur
    }

    /// Finds the name of the encoding that the plain form gives in
    /// `str_..send`, as `file_encoding_loc` says.
    pub fn find_file_encoding(&self, str_: usize, send: usize) -> (r: Option<Loc>)
        ensures
            r == file_encoding_loc(self.bytes(), str_ as int, send as int),
            r matches Some(loc) ==> loc.fits(self.bytes().len() as int),
            r matches Some(loc) ==> str_ <= loc.begin <= loc.end <= send,
    {
        match self.find_coding(str_, send) {
            None => None,
            Some((pos, sep)) => match self.find_name_begin(pos, send, sep) {
                None => None,
                Some(begin) => {
                    if begin <= self.buffer.input.len() {
                        let end: usize = self.find_name_end(begin, send);
                        Some(Loc::new(begin, end))
                    } else {
                        None
                    }
                },
            },
        }
    }

    /// Reads the plain form of an encoding comment in `str_..send` and, when
    /// it names an encoding, decodes the source anew under it, as
    /// `apply_encoding` does. No magic comment is recorded for it.
    pub fn set_file_encoding(&mut self, str_: usize, send: usize)
        ensures
            old(self).same_place(final(self)),
            final(self).magic_comments == old(self).magic_comments,
            match file_encoding_loc(old(self).bytes(), str_ as int, send as int) {
                Some(loc) => encoding_applied(
                    old(self).source_state(),
                    final(self).source_state(),
                    old(self).buffer.input.held_decoder(),
                    loc,
                ),
                None => final(self).source_state() == old(self).source_state(),
            },
    {
        match self.find_file_encoding(str_, send) {
            Some(loc) => {
                self.apply_encoding(loc);
            },
            None => {},
        }
    }
}

} // verus!
