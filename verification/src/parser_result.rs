//! What a parse hands back.

use vstd::prelude::*;
use crate::diagnostic::Diagnostic;
use crate::nodes::node::Node;
use crate::source::comment::Comment;
use crate::source::decoded_input::DecodedInput;
use crate::source::magic_comment::MagicComment;
use crate::token::Token;

verus! {

/// The result of a parse. All of it is made during one parse and belongs to
/// the caller from then on.
#[derive(Debug)]
pub struct ParserResult {
    /// The syntax tree; `None` when the source could not be parsed.
    pub ast: Option<Box<Node>>,
    /// The tokens of the source; empty when they were not recorded.
    pub tokens: Vec<Token>,
    /// The diagnostics, in the order in which they arose.
    pub diagnostics: Vec<Diagnostic>,
    /// The comments of the source.
    pub comments: Vec<Comment>,
    /// The magic comments of the source.
    pub magic_comments: Vec<MagicComment>,
    /// The source as it was parsed, after decoding.
    pub input: DecodedInput,
}

impl ParserResult {
    /// Makes a result from its parts.
    pub fn new(
        ast: Option<Box<Node>>,
        tokens: Vec<Token>,
        diagnostics: Vec<Diagnostic>,
        comments: Vec<Comment>,
        magic_comments: Vec<MagicComment>,
        input: DecodedInput,
    ) -> (r: ParserResult)
        ensures
            r == (ParserResult { ast, tokens, diagnostics, comments, magic_comments, input }),
    {
        ParserResult { ast, tokens, diagnostics, comments, magic_comments, input }
    }

    /// The syntax tree.
    pub fn ast(&self) -> (r: &Option<Box<Node>>)
        ensures
            *r == self.ast,
    {
        &self.ast
    }

    /// The tokens.
    pub fn tokens(&self) -> (r: &Vec<Token>)
        ensures
            *r == self.tokens,
    {
        &self.tokens
    }

    /// The diagnostics.
    pub fn diagnostics(&self) -> (r: &Vec<Diagnostic>)
        ensures
            *r == self.diagnostics,
    {
        &self.diagnostics
    }

    /// The comments.
    pub fn comments(&self) -> (r: &Vec<Comment>)
        ensures
            *r == self.comments,
    {
        &self.comments
    }

    /// The magic comments.
    pub fn magic_comments(&self) -> (r: &Vec<MagicComment>)
        ensures
            *r == self.magic_comments,
    {
        &self.magic_comments
    }

    /// The source.
    pub fn input(&self) -> (r: &DecodedInput)
        ensures
            *r == self.input,
    {
        &self.input
    }
}

} // verus!
