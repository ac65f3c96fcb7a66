//! The node `retry`.

use vstd::prelude::*;
use crate::loc::Loc;

verus! {

/// The keyword `retry`.
#[derive(Debug, Clone, PartialEq)]
pub struct Retry {
    /// Range of the whole construct.
    pub expression_l: Loc,
}

impl Retry {
    /// Range of the whole construct.
    pub fn expression(&self) -> (r: &Loc)
        ensures
            *r == self.expression_l,
    {
        &self.expression_l
    }

    /// The name of the node's kind, `retry`.
    pub fn str_type(&self) -> (r: &'static str)
        ensures
            r@ == "retry"@,
    {
        "retry"
    }
}

} // verus!
