//! The node `undef`.

use vstd::prelude::*;
use crate::loc::Loc;
use crate::nodes::node::Node;

verus! {

/// An `undef` of one or more methods.
#[derive(Debug, Clone, PartialEq)]
pub struct Undef {
    /// The names of the methods, in their order.
    pub names: Vec<Node>,
    /// Range of the keyword `undef`.
    pub keyword_l: Loc,
    /// Range of the whole construct.
    pub expression_l: Loc,
}

impl Undef {
    /// Range of the whole construct.
    pub fn expression(&self) -> (r: &Loc)
        ensures
            *r == self.expression_l,
    {
        &self.expression_l
    }

    /// The name of the node's kind, `undef`.
    pub fn str_type(&self) -> (r: &'static str)
        ensures
            r@ == "undef"@,
    {
        "undef"
    }
}

} // verus!
