//! The node `mlhs`.

use vstd::prelude::*;
use crate::loc::Loc;
use crate::nodes::node::Node;

verus! {

/// The left-hand side of a multiple assignment.
#[derive(Debug, Clone, PartialEq)]
pub struct Mlhs {
    /// The targets, in their order.
    pub items: Vec<Node>,
    /// Range of the opening `(`.
    pub begin_l: Option<Loc>,
    /// Range of the closing `)`.
    pub end_l: Option<Loc>,
    /// Range of the whole construct.
    pub expression_l: Loc,
}

impl Mlhs {
    /// Range of the whole construct.
    pub fn expression(&self) -> (r: &Loc)
        ensures
            *r == self.expression_l,
    {
        &self.expression_l
    }

    /// The name of the node's kind, `mlhs`.
    pub fn str_type(&self) -> (r: &'static str)
        ensures
            r@ == "mlhs"@,
    {
        "mlhs"
    }
}

} // verus!
