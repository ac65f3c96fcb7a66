//! The node `begin`.

use vstd::prelude::*;
use crate::loc::Loc;
use crate::nodes::node::Node;

verus! {

/// A sequence of statements, with or without `begin` and `end` or parentheses around it.
#[derive(Debug, Clone, PartialEq)]
pub struct Begin {
    /// The statements, in their order.
    pub statements: Vec<Node>,
    /// Range of the opening `begin` or `(`.
    pub begin_l: Option<Loc>,
    /// Range of the closing `end` or `)`.
    pub end_l: Option<Loc>,
    /// Range of the whole construct.
    pub expression_l: Loc,
}

impl Begin {
    /// Range of the whole construct.
    pub fn expression(&self) -> (r: &Loc)
        ensures
            *r == self.expression_l,
    {
        &self.expression_l
    }

    /// The name of the node's kind, `begin`.
    pub fn str_type(&self) -> (r: &'static str)
        ensures
            r@ == "begin"@,
    {
        "begin"
    }
}

} // verus!
