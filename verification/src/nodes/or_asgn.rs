//! The node `or_asgn`.

use vstd::prelude::*;
use crate::loc::Loc;
use crate::nodes::node::Node;

verus! {

/// An assignment with `||=`.
#[derive(Debug, Clone, PartialEq)]
pub struct OrAsgn {
    /// The target of the assignment.
    pub recv: Box<Node>,
    /// The value assigned.
    pub value: Box<Node>,
    /// Range of the whole construct.
    pub expression_l: Loc,
    /// Range of the `||=`.
    pub operator_l: Loc,
}

impl OrAsgn {
    /// Range of the whole construct.
    pub fn expression(&self) -> (r: &Loc)
        ensures
            *r == self.expression_l,
    {
        &self.expression_l
    }

    /// The name of the node's kind, `or_asgn`.
    pub fn str_type(&self) -> (r: &'static str)
        ensures
            r@ == "or_asgn"@,
    {
        "or_asgn"
    }
}

} // verus!
