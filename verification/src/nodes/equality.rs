//! Equality of nodes.

use vstd::prelude::*;
use vstd::std_specs::cmp::PartialEqSpec;
use crate::nodes::node::{lemma_children_trees, optional_tree, trees, Node};

verus! {

/// Whether two lists of nodes stand for the same trees.
pub fn nodes_eq(a: &Vec<Node>, b: &Vec<Node>) -> (r: bool)
    ensures
        r == (trees(a@) == trees(b@)),
    decreases a, 1nat,
{
    if a.len() != b.len() {
        assert(trees(a@).len() != trees(b@).len());
        return false;
    }
    let mut i: usize = 0;
    while i < a.len()
        invariant
            a@.len() == b@.len(),
            i <= a@.len(),
            forall|k: int| 0 <= k < i ==> a@[k]@ == b@[k]@,
        decreases a@.len() - i,
    {
        if !a[i].eq(&b[i]) {
            assert(trees(a@)[i as int] != trees(b@)[i as int]);
            return false;
        }
        i = i + 1;
    }
    assert(trees(a@) =~= trees(b@));
    true
}

/// Whether two children stand for the same tree.
pub fn boxed_eq(a: &Box<Node>, b: &Box<Node>) -> (r: bool)
    ensures
        r == (a@ == b@),
    decreases a, 1nat,
{
    (**a).eq(&**b)
}

/// Whether two children that may be absent stand for the same tree, or are
/// both absent.
pub fn optional_eq(a: &Option<Box<Node>>, b: &Option<Box<Node>>) -> (r: bool)
    ensures
        r == (optional_tree(*a) == optional_tree(*b)),
    decreases a, 1nat,
{
    match (a, b) {
        (Some(x), Some(y)) => boxed_eq(x, y),
        (None, None) => true,
        _ => false,
    }
}

impl PartialEq for Node {
    /// Structural equality: true exactly when the two nodes stand for the
    /// same tree.
    fn eq(&self, other: &Node) -> (r: bool)
        decreases self, 0nat,
    {
        proof {
            lemma_children_trees(*self);
            lemma_children_trees(*other);
        }
        match (self, other) {
            (Node::Begin(a), Node::Begin(b)) => {
                a.begin_l == b.begin_l
                    && a.end_l == b.end_l
                    && a.expression_l == b.expression_l
                    && nodes_eq(&a.statements, &b.statements)
            },
            (Node::Class(a), Node::Class(b)) => {
                a.keyword_l == b.keyword_l
                    && a.operator_l == b.operator_l
                    && a.end_l == b.end_l
                    && a.expression_l == b.expression_l
                    && boxed_eq(&a.name, &b.name)
                    && optional_eq(&a.superclass, &b.superclass)
                    && optional_eq(&a.body, &b.body)
            },
            (Node::Cvasgn(a), Node::Cvasgn(b)) => {
                a.name == b.name
                    && a.name_l == b.name_l
                    && a.operator_l == b.operator_l
                    && a.expression_l == b.expression_l
                    && optional_eq(&a.value, &b.value)
            },
            (Node::ForwardArg(a), Node::ForwardArg(b)) => {
                a.expression_l == b.expression_l
            },
            (Node::Hash(a), Node::Hash(b)) => {
                a.begin_l == b.begin_l
                    && a.end_l == b.end_l
                    && a.expression_l == b.expression_l
                    && nodes_eq(&a.pairs, &b.pairs)
            },
            (Node::Mlhs(a), Node::Mlhs(b)) => {
                a.begin_l == b.begin_l
                    && a.end_l == b.end_l
                    && a.expression_l == b.expression_l
                    && nodes_eq(&a.items, &b.items)
            },
            (Node::Module(a), Node::Module(b)) => {
                a.keyword_l == b.keyword_l
                    && a.end_l == b.end_l
                    && a.expression_l == b.expression_l
                    && boxed_eq(&a.name, &b.name)
                    && optional_eq(&a.body, &b.body)
            },
            (Node::Nil(a), Node::Nil(b)) => {
                a.expression_l == b.expression_l
            },
            (Node::OrAsgn(a), Node::OrAsgn(b)) => {
                a.expression_l == b.expression_l
                    && a.operator_l == b.operator_l
                    && boxed_eq(&a.recv, &b.recv)
                    && boxed_eq(&a.value, &b.value)
            },
            (Node::Pair(a), Node::Pair(b)) => {
                a.operator_l == b.operator_l
                    && a.expression_l == b.expression_l
                    && boxed_eq(&a.key, &b.key)
                    && boxed_eq(&a.value, &b.value)
            },
            (Node::Retry(a), Node::Retry(b)) => {
                a.expression_l == b.expression_l
            },
            (Node::Undef(a), Node::Undef(b)) => {
                a.keyword_l == b.keyword_l
                    && a.expression_l == b.expression_l
                    && nodes_eq(&a.names, &b.names)
            },
            (Node::While(a), Node::While(b)) => {
                a.begin_l == b.begin_l
                    && a.end_l == b.end_l
                    && a.keyword_l == b.keyword_l
                    && a.expression_l == b.expression_l
                    && boxed_eq(&a.cond, &b.cond)
                    && optional_eq(&a.body, &b.body)
            },
            _ => false,
        }
    }
}

impl vstd::std_specs::cmp::PartialEqSpecImpl for Node {
    open spec fn obeys_eq_spec() -> bool {
        true
    }

    open spec fn eq_spec(&self, other: &Node) -> bool {
        self@ == other@
    }
}

/// A copy of a node compares equal to the node, in both directions: whatever
/// `clone` returns for `node` stands for the same tree, and `==` holds of two
/// nodes exactly when their trees are the same.
pub proof fn lemma_clone_is_equal(node: Node, copy: Node)
    requires
        cloned::<Node>(node, copy),
    ensures
        node.eq_spec(&copy),
        copy.eq_spec(&node),
{
}

} // verus!
