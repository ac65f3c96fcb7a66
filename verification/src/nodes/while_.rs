//! The node `while`.

use vstd::prelude::*;
use crate::loc::Loc;
use crate::nodes::node::Node;

verus! {

/// A `while` loop.
#[derive(Debug, Clone, PartialEq)]
pub struct While {
    /// The condition.
    pub cond: Box<Node>,
    /// The body, if it is not empty.
    pub body: Option<Box<Node>>,
    /// Range of the keyword `do`.
    pub begin_l: Option<Loc>,
    /// Range of the keyword `end`.
    pub end_l: Option<Loc>,
    /// Range of the keyword `while`.
    pub keyword_l: Loc,
    /// Range of the whole construct.
    pub expression_l: Loc,
}

impl While {
    /// Range of the whole construct.
    pub fn expression(&self) -> (r: &Loc)
        ensures
            *r == self.expression_l,
    {
        &self.expression_l
    }

    /// The name of the node's kind, `while`.
    pub fn str_type(&self) -> (r: &'static str)
        ensures
            r@ == "while"@,
    {
        "while"
    }
}

} // verus!
