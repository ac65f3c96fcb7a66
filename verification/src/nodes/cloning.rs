//! Deep copies of nodes.

use vstd::prelude::*;
use crate::nodes::node::{lemma_children_trees, optional_tree, trees, Node};
use crate::nodes::begin::Begin;
use crate::nodes::class::Class;
use crate::nodes::cvasgn::Cvasgn;
use crate::nodes::forward_arg::ForwardArg;
use crate::nodes::mlhs::Mlhs;
use crate::nodes::module::Module;
use crate::nodes::nil::Nil;
use crate::nodes::or_asgn::OrAsgn;
use crate::nodes::pair::Pair;
use crate::nodes::retry::Retry;
use crate::nodes::undef::Undef;
use crate::nodes::while_::While;

verus! {

/// Copies each node of `nodes`.
pub fn clone_nodes(nodes: &Vec<Node>) -> (r: Vec<Node>)
    ensures
        trees(r@) == trees(nodes@),
    decreases nodes, 1nat,
{
    let mut out: Vec<Node> = Vec::new();
    let mut i: usize = 0;
    while i < nodes.len()
        invariant
            i <= nodes@.len(),
            out@.len() == i,
            forall|k: int| 0 <= k < i ==> out@[k]@ == nodes@[k]@,
        decreases nodes@.len() - i,
    {
        out.push(nodes[i].clone());
        i = i + 1;
    }
    assert(trees(out@) =~= trees(nodes@));
    out
}

/// Copies a child.
pub fn clone_boxed(node: &Box<Node>) -> (r: Box<Node>)
    ensures
        r@ == node@,
    decreases node, 1nat,
{
    Box::new((**node).clone())
}

/// Copies a child that may be absent.
pub fn clone_optional(node: &Option<Box<Node>>) -> (r: Option<Box<Node>>)
    ensures
        optional_tree(r) == optional_tree(*node),
    decreases node, 1nat,
{
    match node {
        Some(inner) => Some(clone_boxed(inner)),
        None => None,
    }
}

impl Clone for Node {
    /// A deep copy: a node that owns copies of all its children and stands
    /// for the same tree.
    fn clone(&self) -> (r: Node)
        ensures
            r@ == self@,
        decreases self, 0nat,
    {
        let r = match self {
            Node::Begin(n) => Node::Begin(
                Begin {
                    statements: clone_nodes(&n.statements),
                    begin_l: n.begin_l,
                    end_l: n.end_l,
                    expression_l: n.expression_l,
                },
            ),
            Node::Class(n) => Node::Class(
                Class {
                    name: clone_boxed(&n.name),
                    superclass: clone_optional(&n.superclass),
                    body: clone_optional(&n.body),
                    keyword_l: n.keyword_l,
                    operator_l: n.operator_l,
                    end_l: n.end_l,
                    expression_l: n.expression_l,
                },
            ),
            Node::Cvasgn(n) => Node::Cvasgn(
                Cvasgn {
                    name: n.name.clone(),
                    value: clone_optional(&n.value),
                    name_l: n.name_l,
                    operator_l: n.operator_l,
                    expression_l: n.expression_l,
                },
            ),
            Node::ForwardArg(n) => Node::ForwardArg(
                ForwardArg {
                    expression_l: n.expression_l,
                },
            ),
            Node::Hash(n) => Node::Hash(
                crate::nodes::hash::Hash {
                    pairs: clone_nodes(&n.pairs),
                    begin_l: n.begin_l,
                    end_l: n.end_l,
                    expression_l: n.expression_l,
                },
            ),
            Node::Mlhs(n) => Node::Mlhs(
                Mlhs {
                    items: clone_nodes(&n.items),
                    begin_l: n.begin_l,
                    end_l: n.end_l,
                    expression_l: n.expression_l,
                },
            ),
            Node::Module(n) => Node::Module(
                Module {
                    name: clone_boxed(&n.name),
                    body: clone_optional(&n.body),
                    keyword_l: n.keyword_l,
                    end_l: n.end_l,
                    expression_l: n.expression_l,
                },
            ),
            Node::Nil(n) => Node::Nil(
                Nil {
                    expression_l: n.expression_l,
                },
            ),
            Node::OrAsgn(n) => Node::OrAsgn(
                OrAsgn {
                    recv: clone_boxed(&n.recv),
                    value: clone_boxed(&n.value),
                    expression_l: n.expression_l,
                    operator_l: n.operator_l,
                },
            ),
            Node::Pair(n) => Node::Pair(
                Pair {
                    key: clone_boxed(&n.key),
                    value: clone_boxed(&n.value),
                    operator_l: n.operator_l,
                    expression_l: n.expression_l,
                },
            ),
            Node::Retry(n) => Node::Retry(
                Retry {
                    expression_l: n.expression_l,
                },
            ),
            Node::Undef(n) => Node::Undef(
                Undef {
                    names: clone_nodes(&n.names),
                    keyword_l: n.keyword_l,
                    expression_l: n.expression_l,
                },
            ),
            Node::While(n) => Node::While(
                While {
                    cond: clone_boxed(&n.cond),
                    body: clone_optional(&n.body),
                    begin_l: n.begin_l,
                    end_l: n.end_l,
                    keyword_l: n.keyword_l,
                    expression_l: n.expression_l,
                },
            ),
        };
        proof {
            lemma_children_trees(r);
            lemma_children_trees(*self);
        }
        r
    }
}

} // verus!
