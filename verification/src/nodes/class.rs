//! The node `class`.

use vstd::prelude::*;
use crate::loc::Loc;
use crate::nodes::node::Node;

verus! {

/// A class definition.
#[derive(Debug, Clone, PartialEq)]
pub struct Class {
    /// The name of the class, a constant.
    pub name: Box<Node>,
    /// The superclass, if one is given.
    pub superclass: Option<Box<Node>>,
    /// The body, if it is not empty.
    pub body: Option<Box<Node>>,
    /// Range of the keyword `class`.
    pub keyword_l: Loc,
    /// Range of the `<` before the superclass.
    pub operator_l: Option<Loc>,
    /// Range of the keyword `end`.
    pub end_l: Loc,
    /// Range of the whole construct.
    pub expression_l: Loc,
}

impl Class {
    /// Range of the whole construct.
    pub fn expression(&self) -> (r: &Loc)
        ensures
            *r == self.expression_l,
    {
        &self.expression_l
    }

    /// The name of the node's kind, `class`.
    pub fn str_type(&self) -> (r: &'static str)
        ensures
            r@ == "class"@,
    {
        "class"
    }
}

} // verus!
