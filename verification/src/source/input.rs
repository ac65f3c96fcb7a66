//! The source buffer that the lexer reads, with the decoder that may
//! replace its bytes.

use vstd::prelude::*;
use crate::ascii::LINE_FEED;
use crate::source::decoded_input::{
    is_line_index, is_line_of, lemma_line_col_indexed, line_col_of, no_newline, DecodedInput,
};
use crate::source::decoder::{
    decode_input, is_builtin_encoding, uppercase_of, Decoder, DecoderResult, InputError,
};
use crate::source::source_line::SourceLine;

verus! {

/// The source buffer: decoded bytes with their line index, and an optional
/// decoder. Between calls the lines are the line index of the bytes, unless
/// no bytes were ever set.
pub struct Input {
    decoded: DecodedInput,
    decoder: Option<Decoder>,
}

impl Input {
    /// The bytes of the buffer.
    pub closed spec fn bytes(&self) -> Seq<u8> {
        self.decoded.bytes@
    }

    /// The lines of the buffer.
    pub closed spec fn lines(&self) -> Seq<SourceLine> {
        self.decoded.lines@
    }

    /// The name of the buffer.
    pub closed spec fn name(&self) -> Seq<char> {
        self.decoded.name@
    }

    /// The decoder that the input holds, if it holds one.
    pub closed spec fn held_decoder(&self) -> Option<Decoder> {
        self.decoder
    }

    /// Whether a decoder is present.
    pub open spec fn has_decoder(&self) -> bool {
        self.held_decoder() is Some
    }

    /// True when `outcome` is an outcome that the decoder held may give for
    /// `input` declared to be in `enc`. Without a decoder there is none.
    pub open spec fn decoder_gives(
        &self,
        enc: String,
        input: Vec<u8>,
        outcome: DecoderResult,
    ) -> bool {
        match self.held_decoder() {
            Some(decoder) => decoder.decodes(enc, input, outcome),
            None => false,
        }
    }

    /// What holds of every input: it is either untouched, with no bytes and
    /// no lines, or its lines are the line index of its bytes.
    pub open spec fn indexed(&self) -> bool {
        ||| self.bytes().len() == 0 && self.lines().len() == 0
        ||| is_line_index(self.bytes(), self.lines())
    }

    #[verifier::type_invariant]
    closed spec fn inv(&self) -> bool {
        self.indexed()
    }

    /// A buffer named `name` with no bytes and no lines yet.
    pub fn new(name: &str, decoder: Option<Decoder>) -> (r: Input)
        ensures
            r.name() == name@,
            r.bytes().len() == 0,
            r.lines().len() == 0,
            r.held_decoder() == decoder,
    {
        Input { decoded: DecodedInput::named(name), decoder }
    }

    /// Replaces the bytes and computes their line index in one forward scan:
    /// a line ends after each line feed, and the last line ends with the
    /// buffer.
    pub fn set_bytes(&mut self, bytes: Vec<u8>)
        ensures
            final(self).bytes() == bytes@,
            is_line_index(final(self).bytes(), final(self).lines()),
            final(self).name() == old(self).name(),
            final(self).held_decoder() == old(self).held_decoder(),
    {
        let mut lines: Vec<SourceLine> = Vec::new();
        let mut start: usize = 0;
        let n: usize = bytes.len();
        let mut idx: usize = 0;
        while idx < n
            invariant
                n == bytes@.len(),
                start <= idx <= n,
                no_newline(bytes@, start as int, idx as int),
                lines@.len() == 0 ==> start == 0,
                lines@.len() > 0 ==> lines@[0].start == 0 && lines@[lines@.len() - 1].end == start,
                forall|i: int|
                    0 <= i < lines@.len() ==> is_line_of(bytes@, #[trigger] lines@[i], false),
                forall|i: int, j: int|
                    0 <= i && j == i + 1 && j < lines@.len() ==> (#[trigger] lines@[i]).end == (
                    #[trigger] lines@[j]).start,
            decreases n - idx,
        {
            if bytes[idx] == LINE_FEED {
                lines.push(SourceLine { start, end: idx + 1, ends_with_eof: false });
                start = idx + 1;
            }
            idx = idx + 1;
        }
        lines.push(SourceLine { start, end: n, ends_with_eof: true });
        self.decoded.update(bytes, lines);
    }

    /// The byte at `idx`, or `None` past the end.
    pub fn byte_at(&self, idx: usize) -> (r: Option<u8>)
        ensures
            r == if idx < self.bytes().len() {
                Some(self.bytes()[idx as int])
            } else {
                None
            },
    {
        self.decoded.byte_at(idx)
    }

    /// The byte at `idx`, which must lie inside the buffer.
    pub fn unchecked_byte_at(&self, idx: usize) -> (r: u8)
        requires
            idx < self.bytes().len(),
        ensures
            r == self.bytes()[idx as int],
    {
        self.decoded.bytes[idx]
    }

    /// The bytes `start..end`, or `None` when the range is reversed or runs
    /// past the end.
    pub fn substr_at(&self, start: usize, end: usize) -> (r: Option<&[u8]>)
        ensures
            r is Some <==> start <= end && end <= self.bytes().len(),
            r is Some ==> r->0@ == self.bytes().subrange(start as int, end as int),
    {
        self.decoded.substr_at(start, end)
    }

    /// The `(line, column)` of byte offset `pos`: defined for every offset up
    /// to and including the length of the buffer, once bytes were set. The
    /// line is the one that holds the byte, the column the distance from its
    /// start; the offset at the end of the buffer lies at the end of the
    /// last line.
    pub fn line_col_for_pos(&self, pos: usize) -> (r: Option<(usize, usize)>)
        ensures
            r is Some <==> pos <= self.bytes().len() && self.lines().len() > 0,
            match r {
                Some((line, col)) => {
                    &&& line < self.lines().len()
                    &&& self.lines()[line as int].start + col == pos
                    &&& pos <= self.lines()[line as int].end
                    &&& pos < self.lines()[line as int].end || line == self.lines().len() - 1
                },
                None => true,
            },
    {
        proof {
            use_type_invariant(self);
            if self.lines().len() > 0 {
                lemma_line_col_indexed(
                    self.bytes(),
                    self.lines(),
                    pos as int,
                );
            }
        }
        self.decoded.line_col_for_pos(pos)
    }

    /// Number of bytes. Every input is `indexed`, and a caller learns it here.
    pub fn len(&self) -> (r: usize)
        ensures
            r == self.bytes().len(),
            self.indexed(),
    {
        proof {
            use_type_invariant(self);
        }
        self.decoded.bytes.len()
    }

    /// The line of index `idx`, which must exist.
    pub fn line_at(&self, idx: usize) -> (r: &SourceLine)
        requires
            idx < self.lines().len(),
        ensures
            *r == self.lines()[idx as int],
    {
        &self.decoded.lines[idx]
    }

    /// Number of lines. Every input is `indexed`, and a caller learns it
    /// here too.
    pub fn lines_count(&self) -> (r: usize)
        ensures
            r == self.lines().len(),
            self.indexed(),
    {
        proof {
            use_type_invariant(self);
        }
        self.decoded.lines.len()
    }

    /// Takes the outcome of a decoding: decoded bytes replace the buffer and
    /// are indexed anew; a failure leaves the buffer as it is and is handed
    /// back.
    pub fn apply_decoded(&mut self, outcome: DecoderResult) -> (r: Result<(), InputError>)
        ensures
            final(self).name() == old(self).name(),
            final(self).held_decoder() == old(self).held_decoder(),
            match outcome {
                DecoderResult::Decoded(bytes) => {
                    &&& r is Ok
                    &&& final(self).bytes() == bytes@
                    &&& is_line_index(final(self).bytes(), final(self).lines())
                },
                DecoderResult::Failed(error) => {
                    &&& r == Err::<(), InputError>(error)
                    &&& final(self).bytes() == old(self).bytes()
                    &&& final(self).lines() == old(self).lines()
                },
            },
    {
        match outcome {
            DecoderResult::Decoded(bytes) => {
                self.set_bytes(bytes);
                Ok(())
            },
            DecoderResult::Failed(error) => Err(error),
        }
    }

    /// Decodes the buffer anew under the encoding named `encoding`. On
    /// success the decoded bytes replace the whole buffer and the lines are
    /// computed anew; on failure the buffer stays as it is. `UTF-8`,
    /// `ASCII-8BIT` and `BINARY`, in any case of the letters, succeed with
    /// the bytes unchanged; any other name fails as unsupported when there
    /// is no decoder, and else the decoder is asked to decode the bytes of
    /// the buffer under that name, and its outcome is taken: decoded bytes
    /// become the buffer, a failure is handed back.
    pub fn set_encoding(&mut self, encoding: &str) -> (r: Result<(), InputError>)
        ensures
            final(self).name() == old(self).name(),
            final(self).held_decoder() == old(self).held_decoder(),
            r is Ok ==> is_line_index(final(self).bytes(), final(self).lines()),
            r is Err ==> final(self).bytes() == old(self).bytes() && final(self).lines() == old(
                self,
            ).lines(),
            is_builtin_encoding(uppercase_of(encoding@)) ==> r is Ok && final(self).bytes() == old(
                self,
            ).bytes(),
            !is_builtin_encoding(uppercase_of(encoding@)) && !old(self).has_decoder() ==> (
            r matches Err(InputError::UnsupportedEncoding(name)) && name@ == encoding@),
            !is_builtin_encoding(uppercase_of(encoding@)) && old(self).has_decoder() ==> exists|
                enc: String,
                input: Vec<u8>,
                outcome: DecoderResult,
            |
                {
                    &&& enc@ == encoding@
                    &&& input@ == old(self).bytes()
                    &&& #[trigger] old(self).decoder_gives(enc, input, outcome)
                    &&& match outcome {
                        DecoderResult::Decoded(bytes) => r is Ok && final(self).bytes() == bytes@,
                        DecoderResult::Failed(error) => r == Err::<(), InputError>(error),
                    }
                },
    {
        let bytes = self.decoded.bytes.clone();
        let name = encoding.to_owned();
        let ghost input = bytes;
        let ghost enc = name;
        let outcome = decode_input(bytes, name, &self.decoder);
        let ghost taken = outcome;
        let r = self.apply_decoded(outcome);
        proof {
            if !is_builtin_encoding(uppercase_of(encoding@)) && old(self).has_decoder() {
                assert(old(self).decoder_gives(enc, input, taken));
            }
        }
        r
    }

    /// The bytes of the buffer.
    pub fn as_bytes(&self) -> (r: &[u8])
        ensures
            r@ == self.bytes(),
    {
        self.decoded.bytes.as_slice()
    }
}

} // verus!
