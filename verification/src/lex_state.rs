//! The lexer's mode, as a token carries it.

use vstd::prelude::*;

verus! {

/// A set of lexical modes, one bit for each. The lexer alone gives the bits
/// a meaning; a token carries the value so that a rewriter can decide by it.
#[derive(Debug, Clone, Copy, PartialEq, Eq, Structural)]
pub struct LexState {
    /// The bits.
    pub value: i32,
}

impl LexState {
    /// The bits.
    pub fn get(&self) -> (r: i32)
        ensures
            r == self.value,
    {
        self.value
    }

    /// Replaces the bits.
    pub fn set(&mut self, value: i32)
        ensures
            final(self).value == value,
    {
        self.value = value;
    }
}

} // verus!
