//! What a hand-written `Debug` impl needs of `core::fmt`: its two types,
//! and the one call that writes a text.

use vstd::prelude::*;

verus! {

/// `core::fmt::Formatter`, carried through `fmt` and never inspected.
#[verifier::external_type_specification]
#[verifier::external_body]
pub struct ExFormatter<'a>(core::fmt::Formatter<'a>);

/// `core::fmt::Error`, the error of `core::fmt::Result`; carried through only.
#[verifier::external_type_specification]
#[verifier::external_body]
pub struct ExFmtError(core::fmt::Error);

/// `core::fmt::Formatter::write_str`: writes `text` as it is. What comes of
/// it lies with the formatter's sink, so nothing is promised of the result.
#[verifier::external_body]
pub(crate) fn write_text(f: &mut core::fmt::Formatter<'_>, text: &str) -> core::fmt::Result {
    f.write_str(text)
}

} // verus!
