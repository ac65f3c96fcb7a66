//! The node `hash`.

use vstd::prelude::*;
use crate::loc::Loc;
use crate::nodes::node::Node;

verus! {

/// A hash literal.
#[derive(Debug, Clone, PartialEq)]
pub struct Hash {
    /// The pairs, in their order.
    pub pairs: Vec<Node>,
    /// Range of the opening `{`.
    pub begin_l: Option<Loc>,
    /// Range of the closing `}`.
    pub end_l: Option<Loc>,
    /// Range of the whole construct.
    pub expression_l: Loc,
}

impl Hash {
    /// Range of the whole construct.
    pub fn expression(&self) -> (r: &Loc)
        ensures
            *r == self.expression_l,
    {
        &self.expression_l
    }

    /// The name of the node's kind, `hash`.
    pub fn str_type(&self) -> (r: &'static str)
        ensures
            r@ == "hash"@,
    {
        "hash"
    }
}

} // verus!
