//! Front end for a Ruby-like scripting language: the source buffer with its
//! line index, the reading of magic comments, tokens and the hook that may
//! rewrite them, syntax tree nodes with byte-accurate ranges, diagnostics,
//! and the options and the result of a parse.
//!
//! The functions carry contracts that Verus proves. What rests on the
//! standard library without proof is marked `external_body` where it stands:
//! the text conversions of `String`, and the one call that writes a text to
//! a formatter.

pub mod ascii;
pub mod bytes;
pub mod debug_level;
pub mod diagnostic;
pub mod fmt_support;
pub mod held;
pub mod lex_state;
pub mod lexer;
pub mod loc;
pub mod nodes;
pub mod parser_options;
pub mod parser_result;
pub mod recorded_tokens;
pub mod source;
pub mod text;
pub mod token;
pub mod token_rewriter;
