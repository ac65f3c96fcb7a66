//! What the parser prints while it works. The levels are bits and may be
//! combined.

use vstd::prelude::*;

verus! {

/// A set of debug levels.
pub type Type = u8;

/// Nothing is printed.
pub const NONE: Type = 0;

/// The parser's steps are printed.
pub const PARSER: Type = 1;

/// The lexer's steps are printed.
pub const LEXER: Type = 2;

/// The buffer's steps are printed.
pub const BUFFER: Type = 4;

} // verus!
