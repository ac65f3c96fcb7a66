//! The enum over all kinds of node, and the tree that a node stands for.

use vstd::prelude::*;
use crate::loc::Loc;
use crate::nodes::begin::Begin;
use crate::nodes::class::Class;
use crate::nodes::cvasgn::Cvasgn;
use crate::nodes::forward_arg::ForwardArg;
use crate::nodes::mlhs::Mlhs;
use crate::nodes::module::Module;
use crate::nodes::nil::Nil;
use crate::nodes::or_asgn::OrAsgn;
use crate::nodes::pair::Pair;
use crate::nodes::retry::Retry;
use crate::nodes::undef::Undef;
use crate::nodes::while_::While;

verus! {

/// A node of the syntax tree. A node owns its children.
#[derive(Debug)]
pub enum Node {
    /// A sequence of statements, with or without `begin` and `end` or parentheses around it.
    Begin(Begin),
    /// A class definition.
    Class(Class),
    /// An assignment to a class variable.
    Cvasgn(Cvasgn),
    /// The `...` that stands for all arguments in a method's parameter list.
    ForwardArg(ForwardArg),
    /// A hash literal.
    Hash(crate::nodes::hash::Hash),
    /// The left-hand side of a multiple assignment.
    Mlhs(Mlhs),
    /// A module definition.
    Module(Module),
    /// The literal `nil`.
    Nil(Nil),
    /// An assignment with `||=`.
    OrAsgn(OrAsgn),
    /// A pair of a key and a value in a hash literal.
    Pair(Pair),
    /// The keyword `retry`.
    Retry(Retry),
    /// An `undef` of one or more methods.
    Undef(Undef),
    /// A `while` loop.
    While(While),
}

/// The tree that a node stands for: for each kind the fields of its struct,
/// with the trees of the children in place of the children and the text of a
/// string in place of the string. Two nodes are equal when their trees are.
pub enum NodeView {
    /// The tree of a `Begin`.
    Begin {
        statements: Seq<NodeView>,
        begin_l: Option<Loc>,
        end_l: Option<Loc>,
        expression_l: Loc,
    },
    /// The tree of a `Class`.
    Class {
        name: Box<NodeView>,
        superclass: Option<Box<NodeView>>,
        body: Option<Box<NodeView>>,
        keyword_l: Loc,
        operator_l: Option<Loc>,
        end_l: Loc,
        expression_l: Loc,
    },
    /// The tree of a `Cvasgn`.
    Cvasgn {
        name: Seq<char>,
        value: Option<Box<NodeView>>,
        name_l: Loc,
        operator_l: Option<Loc>,
        expression_l: Loc,
    },
    /// The tree of a `ForwardArg`.
    ForwardArg {
        expression_l: Loc,
    },
    /// The tree of a `Hash`.
    Hash {
        pairs: Seq<NodeView>,
        begin_l: Option<Loc>,
        end_l: Option<Loc>,
        expression_l: Loc,
    },
    /// The tree of a `Mlhs`.
    Mlhs {
        items: Seq<NodeView>,
        begin_l: Option<Loc>,
        end_l: Option<Loc>,
        expression_l: Loc,
    },
    /// The tree of a `Module`.
    Module {
        name: Box<NodeView>,
        body: Option<Box<NodeView>>,
        keyword_l: Loc,
        end_l: Loc,
        expression_l: Loc,
    },
    /// The tree of a `Nil`.
    Nil {
        expression_l: Loc,
    },
    /// The tree of a `OrAsgn`.
    OrAsgn {
        recv: Box<NodeView>,
        value: Box<NodeView>,
        expression_l: Loc,
        operator_l: Loc,
    },
    /// The tree of a `Pair`.
    Pair {
        key: Box<NodeView>,
        value: Box<NodeView>,
        operator_l: Loc,
        expression_l: Loc,
    },
    /// The tree of a `Retry`.
    Retry {
        expression_l: Loc,
    },
    /// The tree of a `Undef`.
    Undef {
        names: Seq<NodeView>,
        keyword_l: Loc,
        expression_l: Loc,
    },
    /// The tree of a `While`.
    While {
        cond: Box<NodeView>,
        body: Option<Box<NodeView>>,
        begin_l: Option<Loc>,
        end_l: Option<Loc>,
        keyword_l: Loc,
        expression_l: Loc,
    },
}

/// The trees of `nodes`, one for one.
pub open spec fn trees(nodes: Seq<Node>) -> Seq<NodeView> {
    Seq::new(nodes.len(), |i: int| nodes[i].tree())
}

/// The tree of a child that may be absent.
pub open spec fn optional_tree(node: Option<Box<Node>>) -> Option<Box<NodeView>> {
    match node {
        Some(inner) => Some(Box::new(inner.tree())),
        None => None,
    }
}

impl View for Node {
    type V = NodeView;

    open spec fn view(&self) -> NodeView {
        self.tree()
    }
}

impl Node {
    /// The tree that the node stands for.
    pub open spec fn tree(&self) -> NodeView
        decreases self,
    {
        match self {
            Node::Begin(n) => NodeView::Begin {
                statements: Seq::new(
                    n.statements@.len(),
                    |i: int|
                        if 0 <= i < n.statements@.len() {
                            n.statements@[i].tree()
                        } else {
                            arbitrary()
                        },
                ),
                begin_l: n.begin_l,
                end_l: n.end_l,
                expression_l: n.expression_l,
            },
            Node::Class(n) => NodeView::Class {
                name: Box::new(n.name.tree()),
                superclass: match n.superclass {
                    Some(inner) => Some(Box::new(inner.tree())),
                    None => None,
                },
                body: match n.body {
                    Some(inner) => Some(Box::new(inner.tree())),
                    None => None,
                },
                keyword_l: n.keyword_l,
                operator_l: n.operator_l,
                end_l: n.end_l,
                expression_l: n.expression_l,
            },
            Node::Cvasgn(n) => NodeView::Cvasgn {
                name: n.name@,
                value: match n.value {
                    Some(inner) => Some(Box::new(inner.tree())),
                    None => None,
                },
                name_l: n.name_l,
                operator_l: n.operator_l,
                expression_l: n.expression_l,
            },
            Node::ForwardArg(n) => NodeView::ForwardArg {
                expression_l: n.expression_l,
            },
            Node::Hash(n) => NodeView::Hash {
                pairs: Seq::new(
                    n.pairs@.len(),
                    |i: int|
                        if 0 <= i < n.pairs@.len() {
                            n.pairs@[i].tree()
                        } else {
                            arbitrary()
                        },
                ),
                begin_l: n.begin_l,
                end_l: n.end_l,
                expression_l: n.expression_l,
            },
            Node::Mlhs(n) => NodeView::Mlhs {
                items: Seq::new(
                    n.items@.len(),
                    |i: int|
                        if 0 <= i < n.items@.len() {
                            n.items@[i].tree()
                        } else {
                            arbitrary()
                        },
                ),
                begin_l: n.begin_l,
                end_l: n.end_l,
                expression_l: n.expression_l,
            },
            Node::Module(n) => NodeView::Module {
                name: Box::new(n.name.tree()),
                body: match n.body {
                    Some(inner) => Some(Box::new(inner.tree())),
                    None => None,
                },
                keyword_l: n.keyword_l,
                end_l: n.end_l,
                expression_l: n.expression_l,
            },
            Node::Nil(n) => NodeView::Nil {
                expression_l: n.expression_l,
            },
            Node::OrAsgn(n) => NodeView::OrAsgn {
                recv: Box::new(n.recv.tree()),
                value: Box::new(n.value.tree()),
                expression_l: n.expression_l,
                operator_l: n.operator_l,
            },
            Node::Pair(n) => NodeView::Pair {
                key: Box::new(n.key.tree()),
                value: Box::new(n.value.tree()),
                operator_l: n.operator_l,
                expression_l: n.expression_l,
            },
            Node::Retry(n) => NodeView::Retry {
                expression_l: n.expression_l,
            },
            Node::Undef(n) => NodeView::Undef {
                names: Seq::new(
                    n.names@.len(),
                    |i: int|
                        if 0 <= i < n.names@.len() {
                            n.names@[i].tree()
                        } else {
                            arbitrary()
                        },
                ),
                keyword_l: n.keyword_l,
                expression_l: n.expression_l,
            },
            Node::While(n) => NodeView::While {
                cond: Box::new(n.cond.tree()),
                body: match n.body {
                    Some(inner) => Some(Box::new(inner.tree())),
                    None => None,
                },
                begin_l: n.begin_l,
                end_l: n.end_l,
                keyword_l: n.keyword_l,
                expression_l: n.expression_l,
            },
        }
    }

    /// Range of the whole construct that the node stands for.
    pub fn expression(&self) -> (r: &Loc)
        ensures
            *r == self@.expression(),
    {
        match self {
            Node::Begin(n) => n.expression(),
            Node::Class(n) => n.expression(),
            Node::Cvasgn(n) => n.expression(),
            Node::ForwardArg(n) => n.expression(),
            Node::Hash(n) => n.expression(),
            Node::Mlhs(n) => n.expression(),
            Node::Module(n) => n.expression(),
            Node::Nil(n) => n.expression(),
            Node::OrAsgn(n) => n.expression(),
            Node::Pair(n) => n.expression(),
            Node::Retry(n) => n.expression(),
            Node::Undef(n) => n.expression(),
            Node::While(n) => n.expression(),
        }
    }

    /// The name of the node's kind, in lower case.
    pub fn str_type(&self) -> (r: &'static str)
        ensures
            r@ == self@.name(),
    {
        match self {
            Node::Begin(n) => n.str_type(),
            Node::Class(n) => n.str_type(),
            Node::Cvasgn(n) => n.str_type(),
            Node::ForwardArg(n) => n.str_type(),
            Node::Hash(n) => n.str_type(),
            Node::Mlhs(n) => n.str_type(),
            Node::Module(n) => n.str_type(),
            Node::Nil(n) => n.str_type(),
            Node::OrAsgn(n) => n.str_type(),
            Node::Pair(n) => n.str_type(),
            Node::Retry(n) => n.str_type(),
            Node::Undef(n) => n.str_type(),
            Node::While(n) => n.str_type(),
        }
    }
}

impl NodeView {
    /// Range of the whole construct.
    pub open spec fn expression(self) -> Loc {
        match self {
            NodeView::Begin { expression_l, .. } => expression_l,
            NodeView::Class { expression_l, .. } => expression_l,
            NodeView::Cvasgn { expression_l, .. } => expression_l,
            NodeView::ForwardArg { expression_l, .. } => expression_l,
            NodeView::Hash { expression_l, .. } => expression_l,
            NodeView::Mlhs { expression_l, .. } => expression_l,
            NodeView::Module { expression_l, .. } => expression_l,
            NodeView::Nil { expression_l, .. } => expression_l,
            NodeView::OrAsgn { expression_l, .. } => expression_l,
            NodeView::Pair { expression_l, .. } => expression_l,
            NodeView::Retry { expression_l, .. } => expression_l,
            NodeView::Undef { expression_l, .. } => expression_l,
            NodeView::While { expression_l, .. } => expression_l,
        }
    }

    /// The name of the kind, in lower case.
    pub open spec fn name(self) -> Seq<char> {
        match self {
            NodeView::Begin { .. } => "begin"@,
            NodeView::Class { .. } => "class"@,
            NodeView::Cvasgn { .. } => "cvasgn"@,
            NodeView::ForwardArg { .. } => "forward_arg"@,
            NodeView::Hash { .. } => "hash"@,
            NodeView::Mlhs { .. } => "mlhs"@,
            NodeView::Module { .. } => "module"@,
            NodeView::Nil { .. } => "nil"@,
            NodeView::OrAsgn { .. } => "or_asgn"@,
            NodeView::Pair { .. } => "pair"@,
            NodeView::Retry { .. } => "retry"@,
            NodeView::Undef { .. } => "undef"@,
            NodeView::While { .. } => "while"@,
        }
    }
}

/// The tree of a node with a list of children holds the trees of the
/// children, one for one.
pub proof fn lemma_children_trees(node: Node)
    ensures
        node matches Node::Begin(n) ==> node@->Begin_statements == trees(n.statements@),
        node matches Node::Hash(n) ==> node@->Hash_pairs == trees(n.pairs@),
        node matches Node::Mlhs(n) ==> node@->Mlhs_items == trees(n.items@),
        node matches Node::Undef(n) ==> node@->Undef_names == trees(n.names@),
{
    match node {
        Node::Begin(n) => {
            assert(node@->Begin_statements =~= trees(n.statements@));
        },
        Node::Hash(n) => {
            assert(node@->Hash_pairs =~= trees(n.pairs@));
        },
        Node::Mlhs(n) => {
            assert(node@->Mlhs_items =~= trees(n.items@));
        },
        Node::Undef(n) => {
            assert(node@->Undef_names =~= trees(n.names@));
        },
        _ => {},
    }
}

} // verus!
