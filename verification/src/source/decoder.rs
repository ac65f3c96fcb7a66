//! Re-decoding of the source bytes under a named encoding.

use vstd::prelude::*;
use vstd::string::StringExecFns;
use crate::held::Held;

verus! {

/// What can go wrong when the source is decoded.
#[derive(Debug, Clone, PartialEq, Eq)]
pub enum InputError {
    /// No decoder knows the encoding of this name.
    UnsupportedEncoding(String),
    /// The decoder gave up, with this message.
    DecodingError(String),
}

impl InputError {
    /// The error for an encoding that nothing decodes.
    pub fn new_unsupported_encoding(encoding: String) -> (r: InputError)
        ensures
            r == InputError::UnsupportedEncoding(encoding),
    {
        InputError::UnsupportedEncoding(encoding)
    }

    /// The error of a decoder that failed with `message`.
    pub fn new_decoding_error(message: String) -> (r: InputError)
        ensures
            r == InputError::DecodingError(message),
    {
        InputError::DecodingError(message)
    }
}

/// Outcome of decoding: the decoded bytes, or the reason there are none.
#[derive(Debug, Clone, PartialEq, Eq)]
pub enum DecoderResult {
    /// Decoding succeeded with these bytes.
    Decoded(Vec<u8>),
    /// Decoding failed.
    Failed(InputError),
}

impl DecoderResult {
    /// A successful outcome.
    pub fn new_ok(output: Vec<u8>) -> (r: DecoderResult)
        ensures
            r == DecoderResult::Decoded(output),
    {
        DecoderResult::Decoded(output)
    }

    /// A failed outcome.
    pub fn new_err(error: InputError) -> (r: DecoderResult)
        ensures
            r == DecoderResult::Failed(error),
    {
        DecoderResult::Failed(error)
    }
}

/// A decoder supplied by the caller of the parser. An implementation may say
/// in `decodes` which outcomes it gives; one that says nothing may give any.
pub trait CustomDecoder {
    /// True when `result` is an outcome that this decoder may give for
    /// `input` declared to be in `encoding`. Unless an implementation says
    /// otherwise, every outcome is.
    open spec fn decodes(&self, encoding: String, input: Vec<u8>, result: DecoderResult) -> bool {
        true
    }

    /// Decodes `input`, which is declared to be in `encoding`.
    fn decode(&self, encoding: String, input: Vec<u8>) -> (r: DecoderResult)
        ensures
            self.decodes(encoding, input, r),
    ;
}

/// A caller-supplied decoder, boxed.
pub struct Decoder {
    f: Held<Box<dyn CustomDecoder>>,
}

impl Decoder {
    /// True when `result` is an outcome that the decoder held may give for
    /// `input` declared to be in `encoding`, as the decoder's own `decodes`
    /// says.
    pub closed spec fn decodes(
        &self,
        encoding: String,
        input: Vec<u8>,
        result: DecoderResult,
    ) -> bool {
        self.f.inner.decodes(encoding, input, result)
    }

    /// Wraps a decoder: what is returned holds `f`, so that it gives the
    /// outcomes that `f` gives.
    pub fn new(f: Box<dyn CustomDecoder>) -> (r: Decoder)
        ensures
            forall|encoding: String, input: Vec<u8>, result: DecoderResult|
                #[trigger] r.decodes(encoding, input, result) == f.decodes(
                    encoding,
                    input,
                    result,
                ),
    {
        let ghost given = f;
        let held = Held::new(f);
        let r = Decoder { f: held };
        assert(r.f == held);
        assert(r.f.inner == given);
        r
    }

    /// Runs the decoder held on `input`, declared to be in `encoding`, and
    /// returns its outcome.
    pub fn call(&self, encoding: String, input: Vec<u8>) -> (r: DecoderResult)
        ensures
            self.decodes(encoding, input, r),
    {
        self.f.inner.decode(encoding, input)
    }
}

/// The upper-case form of a string as `str::to_uppercase` computes it.
pub uninterp spec fn uppercase_of(s: Seq<char>) -> Seq<char>;

/// `str::to_uppercase`: the result is the upper-case form of `s`, a function
/// of `s` alone.
#[verifier::external_body]
fn to_uppercase(s: &str) -> (r: String)
    ensures
        r@ == uppercase_of(s@),
{
    s.to_uppercase()
}

/// True for the upper-case names of the encodings that need no decoding.
pub open spec fn is_builtin_encoding(upper: Seq<char>) -> bool {
    upper == "UTF-8"@ || upper == "ASCII-8BIT"@ || upper == "BINARY"@
}

/// Whether `upper` names an encoding that needs no decoding.
pub fn builtin_encoding(upper: &String) -> (r: bool)
    ensures
        r == is_builtin_encoding(upper@),
{
    let utf8 = String::from_str("UTF-8");
    let ascii = String::from_str("ASCII-8BIT");
    let binary = String::from_str("BINARY");
    *upper == utf8 || *upper == ascii || *upper == binary
}

/// Decodes `input` given the upper-case form `upper` of the encoding's name
/// `enc`: a built-in encoding gives the input back, any other goes to the
/// decoder, whose outcome is returned, and without a decoder it is
/// unsupported.
pub fn decode_with_name(
    input: Vec<u8>,
    enc: String,
    upper: &String,
    decoder: &Option<Decoder>,
) -> (r: DecoderResult)
    ensures
        is_builtin_encoding(upper@) ==> r == DecoderResult::Decoded(input),
        !is_builtin_encoding(upper@) ==> match *decoder {
            Some(decoder) => decoder.decodes(enc, input, r),
            None => r == DecoderResult::Failed(InputError::UnsupportedEncoding(enc)),
        },
{
    if builtin_encoding(upper) {
        DecoderResult::new_ok(input)
    } else {
        match decoder {
            Some(decoder) => decoder.call(enc, input),
            None => DecoderResult::new_err(InputError::new_unsupported_encoding(enc)),
        }
    }
}

/// Decodes `input`, declared to be in the encoding `enc`. The name is
/// compared in upper case: `UTF-8`, `ASCII-8BIT` and `BINARY` give the input
/// back unchanged; any other name goes to `decoder`, whose outcome is
/// returned as it is; without a decoder the encoding is unsupported.
pub fn decode_input(input: Vec<u8>, enc: String, decoder: &Option<Decoder>) -> (r: DecoderResult)
    ensures
        is_builtin_encoding(uppercase_of(enc@)) ==> r == DecoderResult::Decoded(input),
        !is_builtin_encoding(uppercase_of(enc@)) ==> match *decoder {
            Some(decoder) => decoder.decodes(enc, input, r),
            None => r == DecoderResult::Failed(InputError::UnsupportedEncoding(enc)),
        },
{
    let upper = to_uppercase(enc.as_str());
    decode_with_name(input, enc, &upper, decoder)
}

} // verus!
