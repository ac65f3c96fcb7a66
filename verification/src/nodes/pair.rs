//! The node `pair`.

use vstd::prelude::*;
use crate::loc::Loc;
use crate::nodes::node::Node;

verus! {

/// A pair of a key and a value in a hash literal.
#[derive(Debug, Clone, PartialEq)]
pub struct Pair {
    /// The key.
    pub key: Box<Node>,
    /// The value.
    pub value: Box<Node>,
    /// Range of the `=>` or of the `:`.
    pub operator_l: Loc,
    /// Range of the whole construct.
    pub expression_l: Loc,
}

impl Pair {
    /// Range of the whole construct.
    pub fn expression(&self) -> (r: &Loc)
        ensures
            *r == self.expression_l,
    {
        &self.expression_l
    }

    /// The name of the node's kind, `pair`.
    pub fn str_type(&self) -> (r: &'static str)
        ensures
            r@ == "pair"@,
    {
        "pair"
    }
}

} // verus!
