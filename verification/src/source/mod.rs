//! The source buffer, its line index, and what is found in comments.

pub mod source_line;
pub mod decoded_input;
pub mod decoder;
pub mod input;
pub mod magic_comment;
pub mod comment;
pub mod map;
