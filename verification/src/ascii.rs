//! The ASCII bytes that the scanners look for, and two byte classes.

use vstd::prelude::*;

verus! {

/// `\t`
pub const TAB: u8 = 9;
/// `\n`
pub const LINE_FEED: u8 = 10;
/// `\r`
pub const CARRIAGE_RETURN: u8 = 13;
/// The space character.
pub const SPACE: u8 = 32;
/// `"`
pub const DOUBLE_QUOTE: u8 = 34;
/// `'`
pub const SINGLE_QUOTE: u8 = 39;
/// `*`
pub const STAR: u8 = 42;
/// `-`
pub const DASH: u8 = 45;
/// `:`
pub const COLON: u8 = 58;
/// `;`
pub const SEMICOLON: u8 = 59;
/// `=`
pub const EQUALS: u8 = 61;
/// `\`
pub const BACKSLASH: u8 = 92;
/// `_`
pub const UNDERSCORE: u8 = 95;

/// True for the space character and for the control characters from tab to
/// carriage return.
pub open spec fn is_space(b: u8) -> bool {
    b == SPACE || (TAB <= b && b <= CARRIAGE_RETURN)
}

/// True for the ASCII letters and digits.
pub open spec fn is_alnum(b: u8) -> bool {
    (48 <= b && b <= 57) || (65 <= b && b <= 90) || (97 <= b && b <= 122)
}

/// Whether `b` is white space, as `is_space` defines it.
pub fn byte_is_space(b: u8) -> (r: bool)
    ensures
        r == is_space(b),
{
    b == SPACE || (TAB <= b && b <= CARRIAGE_RETURN)
}

/// Whether `b` is an ASCII letter or digit.
pub fn byte_is_alnum(b: u8) -> (r: bool)
    ensures
        r == is_alnum(b),
{
    (48 <= b && b <= 57) || (65 <= b && b <= 90) || (97 <= b && b <= 122)
}

} // verus!
