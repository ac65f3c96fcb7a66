//! What a caller may set before a parse.

use vstd::prelude::*;
use vstd::string::StringExecFns;
use crate::debug_level;
use crate::source::decoder::Decoder;
use crate::token_rewriter::TokenRewriter;

verus! {

/// Configuration of the parser.
pub struct ParserOptions {
    /// Name of the buffer, used in messages.
    pub buffer_name: String,
    /// What is printed while the parser works: a set of the levels of
    /// `debug_level`.
    pub debug: debug_level::Type,
    /// A decoder for sources in an encoding other than `UTF-8`,
    /// `ASCII-8BIT` and `BINARY`, which need none.
    pub decoder: Option<Decoder>,
    /// A rewriter through which every token goes before the parser sees it.
    pub token_rewriter: Option<TokenRewriter>,
    /// Whether the parser records the tokens. When it does not, the list of
    /// tokens in the result of the parse is empty.
    pub record_tokens: bool,
}

impl ParserOptions {
    /// Makes the options from their parts.
    pub fn new(
        buffer_name: String,
        debug: debug_level::Type,
        decoder: Option<Decoder>,
        token_rewriter: Option<TokenRewriter>,
        record_tokens: bool,
    ) -> (r: ParserOptions)
        ensures
            r.buffer_name == buffer_name,
            r.debug == debug,
            r.decoder == decoder,
            r.token_rewriter == token_rewriter,
            r.record_tokens == record_tokens,
    {
        ParserOptions { buffer_name, debug, decoder, token_rewriter, record_tokens }
    }

    /// Name of the buffer.
    pub fn buffer_name(&self) -> (r: &String)
        ensures
            *r == self.buffer_name,
    {
        &self.buffer_name
    }

    /// The debug levels.
    pub fn debug(&self) -> (r: &debug_level::Type)
        ensures
            *r == self.debug,
    {
        &self.debug
    }

    /// The decoder, if one is set.
    pub fn decoder(&self) -> (r: &Option<Decoder>)
        ensures
            *r == self.decoder,
    {
        &self.decoder
    }

    /// The token rewriter, if one is set.
    pub fn token_rewriter(&self) -> (r: &Option<TokenRewriter>)
        ensures
            *r == self.token_rewriter,
    {
        &self.token_rewriter
    }

    /// Whether the parser records the tokens.
    pub fn record_tokens(&self) -> (r: &bool)
        ensures
            *r == self.record_tokens,
    {
        &self.record_tokens
    }
}

impl Default for ParserOptions {
    /// The options of a parse that nothing was set for: the buffer is named
    /// `(eval)`, nothing is printed, there is no decoder and no rewriter,
    /// and the tokens are recorded.
    fn default() -> (r: ParserOptions)
        ensures
            r.buffer_name@ == "(eval)"@,
            r.debug == debug_level::NONE,
            r.decoder is None,
            r.token_rewriter is None,
            r.record_tokens,
    {
        ParserOptions {
            buffer_name: String::from_str("(eval)"),
            debug: debug_level::NONE,
            decoder: None,
            token_rewriter: None,
            record_tokens: true,
        }
    }
}

} // verus!
