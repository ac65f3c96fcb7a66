//! Owned byte strings: the values of tokens.

use vstd::prelude::*;
use vstd::utf8::{decode_utf8, valid_utf8};

verus! {

/// A byte string that need not be valid UTF-8.
#[derive(Debug, Default, PartialEq, Eq)]
pub struct Bytes {
    /// The bytes.
    pub raw: Vec<u8>,
}

/// The text that `String::from_utf8_lossy` reads in a byte string: the text
/// that the bytes encode, with a replacement character for each run of
/// bytes that is not UTF-8.
pub uninterp spec fn lossy_text(bytes: Seq<u8>) -> Seq<char>;

/// `String::from_utf8_lossy`: the result is `lossy_text` of the bytes, and
/// for valid UTF-8 it is the text that the bytes encode.
#[verifier::external_body]
fn from_utf8_lossy(bytes: &Vec<u8>) -> (r: String)
    ensures
        r@ == lossy_text(bytes@),
        valid_utf8(bytes@) ==> r@ == decode_utf8(bytes@),
{
    String::from_utf8_lossy(bytes).into_owned()
}

impl View for Bytes {
    type V = Seq<u8>;

    open spec fn view(&self) -> Seq<u8> {
        self.raw@
    }
}

impl Bytes {
    /// Wraps `raw`.
    pub fn new(raw: Vec<u8>) -> (r: Bytes)
        ensures
            r.raw == raw,
    {
        Bytes { raw }
    }

    /// The bytes.
    pub fn as_raw(&self) -> (r: &Vec<u8>)
        ensures
            *r == self.raw,
    {
        &self.raw
    }

    /// Gives the bytes up.
    pub fn into_raw(self) -> (r: Vec<u8>)
        ensures
            r == self.raw,
    {
        self.raw
    }

    /// The bytes as text; what is not UTF-8 in them is replaced, as
    /// `lossy_text` says.
    pub fn to_string_lossy(&self) -> (r: String)
        ensures
            r@ == lossy_text(self@),
            valid_utf8(self@) ==> r@ == decode_utf8(self@),
    {
        from_utf8_lossy(&self.raw)
    }

    /// Number of bytes.
    pub fn len(&self) -> (r: usize)
        ensures
            r == self@.len(),
    {
        self.raw.len()
    }

    /// Whether the bytes of `self` are those of `other`.
    pub fn same_bytes(&self, other: &Bytes) -> (r: bool)
        ensures
            r == (self@ == other@),
    {
        if self.raw.len() != other.raw.len() {
            return false;
        }
        let mut i: usize = 0;
        while i < self.raw.len()
            invariant
                self.raw@.len() == other.raw@.len(),
                i <= self.raw@.len(),
                forall|k: int| 0 <= k < i ==> self.raw@[k] == other.raw@[k],
            decreases self.raw@.len() - i,
        {
            if self.raw[i] != other.raw[i] {
                return false;
            }
            i = i + 1;
        }
        assert(self@ =~= other@);
        true
    }
}

impl Clone for Bytes {
    /// A copy with the same bytes.
    fn clone(&self) -> (r: Bytes)
        ensures
            r@ == self@,
    {
        Bytes { raw: self.raw.clone() }
    }
}

} // verus!
