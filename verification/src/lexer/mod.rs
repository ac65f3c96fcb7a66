//! The part of the lexer that reads the comments at the top of a file.

pub mod buffer;
pub mod marker;
pub mod encoding;
pub mod directives;
pub mod file_encoding;
pub mod parse_magic_comment;
