//! The node `nil`.

use vstd::prelude::*;
use crate::loc::Loc;

verus! {

/// The literal `nil`.
#[derive(Debug, Clone, PartialEq)]
pub struct Nil {
    /// Range of the whole construct.
    pub expression_l: Loc,
}

impl Nil {
    /// Range of the whole construct.
    pub fn expression(&self) -> (r: &Loc)
        ensures
            *r == self.expression_l,
    {
        &self.expression_l
    }

    /// The name of the node's kind, `nil`.
    pub fn str_type(&self) -> (r: &'static str)
        ensures
            r@ == "nil"@,
    {
        "nil"
    }
}

} // verus!
