//! The lexer's state: the source buffer with the cursor on it, and what the
//! lexer has collected so far.

use vstd::prelude::*;
use crate::diagnostic::Diagnostic;
use crate::source::decoded_input::is_line_index;
use crate::source::decoder::Decoder;
use crate::source::input::Input;
use crate::source::magic_comment::MagicComment;

verus! {

/// The source buffer and the lexer's place in it.
pub struct Buffer {
    /// The source.
    pub input: Input,
    /// Number of lines that the lexer has entered, the current one included.
    pub line_count: usize,
    /// Offset where the current line begins.
    pub pbeg: usize,
    /// Offset of the next byte to read.
    pub pcur: usize,
    /// Offset where the current line ends.
    pub pend: usize,
}

/// The lexer, as far as the comments at the top of a file concern it.
pub struct Lexer {
    /// The source buffer and the cursor.
    pub buffer: Buffer,
    /// True when the first line of the source is a `#!` line.
    pub has_shebang: bool,
    /// The magic comments found so far, in the order in which they stand.
    pub magic_comments: Vec<MagicComment>,
    /// The diagnostics given so far, in the order in which they arose.
    pub diagnostics: Vec<Diagnostic>,
}

impl Lexer {
    /// The bytes of the source.
    pub open spec fn bytes(&self) -> Seq<u8> {
        self.buffer.input.bytes()
    }

    /// True when `other` differs from `self` at most in the source buffer's
    /// content, in the magic comments and in the diagnostics: the cursor, the
    /// name of the buffer and the decoder held are the same.
    pub open spec fn same_place(&self, other: &Lexer) -> bool {
        &&& other.buffer.line_count == self.buffer.line_count
        &&& other.buffer.pbeg == self.buffer.pbeg
        &&& other.buffer.pcur == self.buffer.pcur
        &&& other.buffer.pend == self.buffer.pend
        &&& other.has_shebang == self.has_shebang
        &&& other.buffer.input.name() == self.buffer.input.name()
        &&& other.buffer.input.held_decoder() == self.buffer.input.held_decoder()
    }

    /// A lexer at the start of `bytes`, with nothing collected yet.
    pub fn new(bytes: Vec<u8>, name: &str, decoder: Option<Decoder>) -> (r: Lexer)
        ensures
            r.bytes() == bytes@,
            is_line_index(r.bytes(), r.buffer.input.lines()),
            r.buffer.input.name() == name@,
            r.buffer.input.held_decoder() == decoder,
            r.buffer.line_count == 0,
            r.buffer.pbeg == 0,
            r.buffer.pcur == 0,
            r.buffer.pend == 0,
            !r.has_shebang,
            r.magic_comments@.len() == 0,
            r.diagnostics@.len() == 0,
    {
        let mut input = Input::new(name, decoder);
        input.set_bytes(bytes);
        Lexer {
            buffer: Buffer { input, line_count: 0, pbeg: 0, pcur: 0, pend: 0 },
            has_shebang: false,
            magic_comments: Vec::new(),
            diagnostics: Vec::new(),
        }
    }

    /// The byte at offset `idx`, or `None` past the end of the source.
    pub fn char_at(&self, idx: usize) -> (r: Option<u8>)
        ensures
            r == byte_at(self.bytes(), idx as int),
    {
        self.buffer.input.byte_at(idx)
    }
}

/// The byte of `bytes` at offset `idx`, or `None` outside the buffer.
pub open spec fn byte_at(bytes: Seq<u8>, idx: int) -> Option<u8> {
    if 0 <= idx < bytes.len() {
        Some(bytes[idx])
    } else {
        None
    }
}

} // verus!
