//! The node `cvasgn`.

use vstd::prelude::*;
use crate::loc::Loc;
use crate::nodes::node::Node;

verus! {

/// An assignment to a class variable.
#[derive(Debug, Clone, PartialEq)]
pub struct Cvasgn {
    /// The name of the variable, with its `@@`.
    pub name: String,
    /// The value assigned; absent in a multiple assignment.
    pub value: Option<Box<Node>>,
    /// Range of the name.
    pub name_l: Loc,
    /// Range of the `=`.
    pub operator_l: Option<Loc>,
    /// Range of the whole construct.
    pub expression_l: Loc,
}

impl Cvasgn {
    /// Range of the whole construct.
    pub fn expression(&self) -> (r: &Loc)
        ensures
            *r == self.expression_l,
    {
        &self.expression_l
    }

    /// The name of the node's kind, `cvasgn`.
    pub fn str_type(&self) -> (r: &'static str)
        ensures
            r@ == "cvasgn"@,
    {
        "cvasgn"
    }
}

} // verus!
