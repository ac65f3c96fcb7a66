//! The node `module`.

use vstd::prelude::*;
use crate::loc::Loc;
use crate::nodes::node::Node;

verus! {

/// A module definition.
#[derive(Debug, Clone, PartialEq)]
pub struct Module {
    /// The name of the module, a constant.
    pub name: Box<Node>,
    /// The body, if it is not empty.
    pub body: Option<Box<Node>>,
    /// Range of the keyword `module`.
    pub keyword_l: Loc,
    /// Range of the keyword `end`.
    pub end_l: Loc,
    /// Range of the whole construct.
    pub expression_l: Loc,
}

impl Module {
    /// Range of the whole construct.
    pub fn expression(&self) -> (r: &Loc)
        ensures
            *r == self.expression_l,
    {
        &self.expression_l
    }

    /// The name of the node's kind, `module`.
    pub fn str_type(&self) -> (r: &'static str)
        ensures
            r@ == "module"@,
    {
        "module"
    }
}

} // verus!
