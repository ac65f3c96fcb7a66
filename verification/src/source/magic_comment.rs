//! Directives found in the comments at the top of a file.

use vstd::prelude::*;
use crate::loc::Loc;

verus! {

/// The directive that a magic comment gives.
#[derive(Debug, Clone, Copy, PartialEq, Eq, Structural)]
pub enum MagicCommentKind {
    /// `# encoding: ...` or `# coding: ...`
    Encoding,
    /// `# frozen_string_literal: ...`
    FrozenStringLiteral,
    /// `# warn_indent: ...`
    WarnIndent,
    /// `# shareable_constant_value: ...`
    ShareableConstantValue,
}

impl MagicCommentKind {
    /// The kind `Encoding`.
    pub fn encoding() -> (r: MagicCommentKind)
        ensures
            r == MagicCommentKind::Encoding,
    {
        MagicCommentKind::Encoding
    }

    /// The kind `FrozenStringLiteral`.
    pub fn frozen_string_literal() -> (r: MagicCommentKind)
        ensures
            r == MagicCommentKind::FrozenStringLiteral,
    {
        MagicCommentKind::FrozenStringLiteral
    }

    /// The kind `WarnIndent`.
    pub fn warn_indent() -> (r: MagicCommentKind)
        ensures
            r == MagicCommentKind::WarnIndent,
    {
        MagicCommentKind::WarnIndent
    }

    /// The kind `ShareableConstantValue`.
    pub fn shareable_constant_value() -> (r: MagicCommentKind)
        ensures
            r == MagicCommentKind::ShareableConstantValue,
    {
        MagicCommentKind::ShareableConstantValue
    }
}

/// A magic comment: its kind, and where its key and its value stand.
#[derive(Debug, Clone, Copy, PartialEq, Eq, Structural)]
pub struct MagicComment {
    /// Which directive it is.
    pub kind: MagicCommentKind,
    /// Range of the key, such as `encoding`.
    pub key_l: Loc,
    /// Range of the value, such as `utf-8`.
    pub value_l: Loc,
}

impl MagicComment {
    /// Makes a magic comment from its parts.
    pub fn new(kind: MagicCommentKind, key_l: Loc, value_l: Loc) -> (r: MagicComment)
        ensures
            r == (MagicComment { kind, key_l, value_l }),
    {
        MagicComment { kind, key_l, value_l }
    }
}

} // verus!
