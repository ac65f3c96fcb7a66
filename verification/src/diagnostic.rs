//! Messages that the front end collects while it reads a source.

use vstd::prelude::*;
use crate::fmt_support::write_text;
use crate::loc::Loc;
use crate::source::decoder::InputError;

verus! {

/// How serious a diagnostic is.
#[derive(Clone, Copy, PartialEq, Eq, Structural)]
pub enum ErrorLevel {
    /// The source is accepted.
    Warning,
    /// The source is wrong.
    Error,
}

impl ErrorLevel {
    /// The level `Warning`.
    pub fn warning() -> (r: ErrorLevel)
        ensures
            r == ErrorLevel::Warning,
    {
        ErrorLevel::Warning
    }

    /// The level `Error`.
    pub fn error() -> (r: ErrorLevel)
        ensures
            r == ErrorLevel::Error,
    {
        ErrorLevel::Error
    }

    /// The name of the level in lower case.
    pub fn name(&self) -> (r: &'static str)
        ensures
            r@ == match *self {
                ErrorLevel::Warning => "warning"@,
                ErrorLevel::Error => "error"@,
            },
    {
        match self {
            ErrorLevel::Warning => "warning",
            ErrorLevel::Error => "error",
        }
    }
}

impl core::fmt::Debug for ErrorLevel {
    /// Writes the name of the level.
    fn fmt(&self, f: &mut core::fmt::Formatter<'_>) -> core::fmt::Result {
        write_text(f, self.name())
    }
}

/// What a diagnostic says.
#[derive(Debug, Clone, PartialEq, Eq)]
pub enum DiagnosticMessage {
    /// A numbered match reference cannot be given another name.
    AliasNthRef {  },
    /// A magic comment names an encoding that nothing decodes.
    UnsupportedEncoding { encoding: String },
    /// The decoder failed on the source.
    DecodingError { message: String },
    /// A magic comment names an encoding in bytes that are not UTF-8.
    InvalidEncodingName {  },
}

/// The message for a failed re-decoding of the source: of the same kind as
/// the error, with the same text.
pub open spec fn encoding_message(error: InputError) -> DiagnosticMessage {
    match error {
        InputError::UnsupportedEncoding(encoding) => {
            DiagnosticMessage::UnsupportedEncoding { encoding }
        },
        InputError::DecodingError(message) => DiagnosticMessage::DecodingError { message },
    }
}

impl DiagnosticMessage {
    /// The message for a failed re-decoding of the source.
    pub fn from_input_error(error: InputError) -> (r: DiagnosticMessage)
        ensures
            r == encoding_message(error),
    {
        match error {
            InputError::UnsupportedEncoding(encoding) => DiagnosticMessage::UnsupportedEncoding {
                encoding,
            },
            InputError::DecodingError(message) => DiagnosticMessage::DecodingError { message },
        }
    }
}

/// A message about a range of the source.
#[derive(Debug, Clone, PartialEq, Eq)]
pub struct Diagnostic {
    /// How serious it is.
    pub level: ErrorLevel,
    /// What it says.
    pub message: DiagnosticMessage,
    /// The range it is about.
    pub loc: Loc,
}

impl Diagnostic {
    /// Makes a diagnostic from its parts.
    pub fn new(level: ErrorLevel, message: DiagnosticMessage, loc: Loc) -> (r: Diagnostic)
        ensures
            r == (Diagnostic { level, message, loc }),
    {
        Diagnostic { level, message, loc }
    }
}

} // verus!
