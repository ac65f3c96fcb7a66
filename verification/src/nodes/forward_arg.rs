//! The node `forward_arg`.

use vstd::prelude::*;
use crate::loc::Loc;

verus! {

/// The `...` that stands for all arguments in a method's parameter list.
#[derive(Debug, Clone, PartialEq)]
pub struct ForwardArg {
    /// Range of the whole construct.
    pub expression_l: Loc,
}

impl ForwardArg {
    /// Range of the whole construct.
    pub fn expression(&self) -> (r: &Loc)
        ensures
            *r == self.expression_l,
    {
        &self.expression_l
    }

    /// The name of the node's kind, `forward_arg`.
    pub fn str_type(&self) -> (r: &'static str)
        ensures
            r@ == "forward_arg"@,
    {
        "forward_arg"
    }
}

} // verus!
