//! Re-decoding of the source when a comment names an encoding.

use vstd::prelude::*;
use vstd::utf8::{decode_utf8, valid_utf8};
use crate::diagnostic::{encoding_message, Diagnostic, DiagnosticMessage, ErrorLevel};
use crate::lexer::buffer::Lexer;
use crate::loc::Loc;
use crate::source::decoded_input::is_line_index;
use crate::source::decoder::{
    is_builtin_encoding, uppercase_of, Decoder, DecoderResult, InputError,
};
use crate::source::source_line::SourceLine;

verus! {

/// `String::from_utf8`: succeeds exactly on valid UTF-8, with the text that
/// the bytes encode.
#[verifier::external_body]
fn string_from_utf8(bytes: Vec<u8>) -> (r: Option<String>)
    ensures
        r is Some <==> valid_utf8(bytes@),
        r is Some ==> r->0@ == decode_utf8(bytes@),
{
    String::from_utf8(bytes).ok()
}

/// What a re-decoding can change: the source, with its line index, and the
/// diagnostics.
pub struct SourceState {
    /// The bytes of the source.
    pub bytes: Seq<u8>,
    /// The lines of the source.
    pub lines: Seq<SourceLine>,
    /// The diagnostics given so far.
    pub diagnostics: Seq<Diagnostic>,
}

/// True when `after` is `before` with the same source and one more
/// diagnostic at its end, an error about `loc`.
pub open spec fn reported(before: SourceState, after: SourceState, loc: Loc) -> bool {
    &&& after.bytes == before.bytes
    &&& after.lines == before.lines
    &&& after.diagnostics.len() == before.diagnostics.len() + 1
    &&& after.diagnostics.subrange(0, before.diagnostics.len() as int) == before.diagnostics
    &&& after.diagnostics.last().level == ErrorLevel::Error
    &&& after.diagnostics.last().loc == loc
}

/// What becomes of a state when the outcome of a decoding is taken: decoded
/// bytes become the source, indexed anew, and nothing is reported; a failure
/// is reported as an error about `loc`, and the source stays.
pub open spec fn outcome_taken(
    before: SourceState,
    after: SourceState,
    outcome: DecoderResult,
    loc: Loc,
) -> bool {
    match outcome {
        DecoderResult::Decoded(bytes) => {
            &&& after.diagnostics == before.diagnostics
            &&& after.bytes == bytes@
            &&& is_line_index(after.bytes, after.lines)
        },
        DecoderResult::Failed(error) => {
            &&& after.bytes == before.bytes
            &&& after.lines == before.lines
            &&& after.diagnostics == before.diagnostics.push(
                Diagnostic { level: ErrorLevel::Error, message: encoding_message(error), loc },
            )
        },
    }
}

/// What `apply_encoding` makes of a state, for the encoding named by the
/// bytes that `loc` covers:
/// - a range that does not lie inside the source names nothing, and nothing
///   changes;
/// - a name that is not UTF-8 is reported, and the source stays;
/// - `UTF-8`, `ASCII-8BIT` and `BINARY`, in any case of the letters, keep the
///   bytes and report nothing;
/// - any other name, without a decoder, is reported as unsupported, and the
///   source stays;
/// - with a decoder, the decoder is asked to decode the bytes of the source
///   under that name, and its outcome is taken as `outcome_taken` says.
pub open spec fn encoding_applied(
    before: SourceState,
    after: SourceState,
    decoder: Option<Decoder>,
    loc: Loc,
) -> bool {
    let name_bytes = loc.slice_of(before.bytes);
    let name = decode_utf8(name_bytes);
    if !loc.fits(before.bytes.len() as int) {
        after == before
    } else if !valid_utf8(name_bytes) {
        &&& reported(before, after, loc)
        &&& after.diagnostics.last().message == (DiagnosticMessage::InvalidEncodingName {  })
    } else if is_builtin_encoding(uppercase_of(name)) {
        &&& after.diagnostics == before.diagnostics
        &&& after.bytes == before.bytes
        &&& is_line_index(after.bytes, after.lines)
    } else {
        match decoder {
            None => {
                &&& reported(before, after, loc)
                &&& after.diagnostics.last().message matches
                    DiagnosticMessage::UnsupportedEncoding { encoding }
                &&& encoding@ == name
            },
            Some(decoder) => exists|enc: String, input: Vec<u8>, outcome: DecoderResult|
                {
                    &&& enc@ == name
                    &&& input@ == before.bytes
                    &&& #[trigger] decoder.decodes(enc, input, outcome)
                    &&& outcome_taken(before, after, outcome, loc)
                },
        }
    }
}

/// Applying an encoding only ever adds to the diagnostics.
pub proof fn lemma_encoding_keeps_diagnostics(
    before: SourceState,
    after: SourceState,
    decoder: Option<Decoder>,
    loc: Loc,
)
    requires
        encoding_applied(before, after, decoder, loc),
    ensures
        before.diagnostics.is_prefix_of(after.diagnostics),
{
    let name_bytes = loc.slice_of(before.bytes);
    let name = decode_utf8(name_bytes);
    if loc.fits(before.bytes.len() as int) && valid_utf8(name_bytes) && !is_builtin_encoding(
        uppercase_of(name),
    ) && decoder is Some {
        let (enc, input, outcome) = choose|enc: String, input: Vec<u8>, outcome: DecoderResult|
            {
                &&& enc@ == name
                &&& input@ == before.bytes
                &&& #[trigger] decoder->0.decodes(enc, input, outcome)
                &&& outcome_taken(before, after, outcome, loc)
            };
        assert(outcome_taken(before, after, outcome, loc));
    }
}

impl Lexer {
    /// The part of the lexer's state that a re-decoding can change.
    pub open spec fn source_state(&self) -> SourceState {
        SourceState {
            bytes: self.bytes(),
            lines: self.buffer.input.lines(),
            diagnostics: self.diagnostics@,
        }
    }
}

impl Lexer {
    /// Appends an error about `loc` with the given message.
    pub fn report(&mut self, message: DiagnosticMessage, loc: Loc)
        ensures
            final(self).diagnostics@ == old(self).diagnostics@.push(
                Diagnostic { level: ErrorLevel::Error, message, loc },
            ),
            final(self).buffer == old(self).buffer,
            final(self).has_shebang == old(self).has_shebang,
            final(self).magic_comments == old(self).magic_comments,
    {
        self.diagnostics.push(Diagnostic::new(ErrorLevel::Error, message, loc));
    }

    /// Takes the outcome of a re-decoding asked for by the encoding name at
    /// `loc`: a failure becomes a diagnostic about `loc`, success changes
    /// nothing more.
    pub fn encoding_decided(&mut self, outcome: Result<(), InputError>, loc: Loc)
        ensures
            final(self).buffer == old(self).buffer,
            final(self).has_shebang == old(self).has_shebang,
            final(self).magic_comments == old(self).magic_comments,
            match outcome {
                Ok(_) => final(self).diagnostics@ == old(self).diagnostics@,
                Err(error) => final(self).diagnostics@ == old(self).diagnostics@.push(
                    Diagnostic { level: ErrorLevel::Error, message: encoding_message(error), loc },
                ),
            },
    {
        match outcome {
            Ok(_) => {},
            Err(error) => {
                self.report(DiagnosticMessage::from_input_error(error), loc);
            },
        }
    }

    /// Decodes the source anew under the encoding whose name stands at
    /// `loc`, and reports a failure as a diagnostic about `loc`, as
    /// `encoding_applied` says.
    pub fn apply_encoding(&mut self, loc: Loc)
        ensures
            old(self).same_place(final(self)),
            final(self).magic_comments == old(self).magic_comments,
            encoding_applied(
                old(self).source_state(),
                final(self).source_state(),
                old(self).buffer.input.held_decoder(),
                loc,
            ),
    {
        let name_bytes = match self.buffer.input.substr_at(loc.begin, loc.end) {
            Some(slice) => vstd::slice::slice_to_vec(slice),
            None => {
                return ;
            },
        };
        let ghost before = old(self).diagnostics@;
        match string_from_utf8(name_bytes) {
            Some(name) => {
                let outcome = self.buffer.input.set_encoding(name.as_str());
                self.encoding_decided(outcome, loc);
            },
            None => {
                self.report(DiagnosticMessage::InvalidEncodingName {  }, loc);
            },
        }
        assert(self.diagnostics@.len() == before.len() + 1 ==> self.diagnostics@.subrange(
            0,
            before.len() as int,
        ) =~= before);
    }
}

} // verus!
