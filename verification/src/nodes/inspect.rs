//! The text form of a tree, in the style of S-expressions.

use vstd::prelude::*;
use vstd::string::StringExecFns;
use crate::nodes::node::{lemma_children_trees, optional_tree, trees, Node, NodeView};
use crate::text::{debug_quoted, quoted};

verus! {

/// Two spaces for each level of `indent`.
pub open spec fn indentation(indent: nat) -> Seq<char>
    decreases indent,
{
    if indent == 0 {
        Seq::empty()
    } else {
        indentation((indent - 1) as nat) + "  "@
    }
}

/// The text of a child: on a line of its own, one level deeper.
pub open spec fn child_text(child: NodeView, indent: nat) -> Seq<char>
    decreases child, 2nat,
{
    ",\n"@ + child.inspect(indent + 1)
}

/// The text of a child that is shown as `nil` when it is absent.
pub open spec fn child_or_nil_text(child: Option<Box<NodeView>>, indent: nat) -> Seq<char>
    decreases child, 3nat,
{
    match child {
        Some(inner) => child_text(*inner, indent),
        None => ", nil"@,
    }
}

/// The text of a child that is left out when it is absent.
pub open spec fn optional_child_text(child: Option<Box<NodeView>>, indent: nat) -> Seq<char>
    decreases child, 3nat,
{
    match child {
        Some(inner) => child_text(*inner, indent),
        None => Seq::empty(),
    }
}

/// The text of the first `count` of `children`, one after another.
pub open spec fn list_text(children: Seq<NodeView>, indent: nat, count: nat) -> Seq<char>
    decreases children, count,
{
    if count == 0 || count > children.len() {
        Seq::empty()
    } else {
        list_text(children, indent, (count - 1) as nat) + child_text(children[count - 1], indent)
    }
}

impl NodeView {
    /// The text of the tree at depth `indent`: the indentation, `s(:`, the
    /// name of the kind, what `children_text` gives, and `)`.
    pub open spec fn inspect(self, indent: nat) -> Seq<char>
        decreases self, 1nat,
    {
        indentation(indent) + "s(:"@ + self.name() + self.children_text(indent) + ")"@
    }

    /// The text of what a tree holds beside its ranges, in the order of the
    /// fields: each child as `child_text` shows it, a string behind `, ` as
    /// `quoted` shows it.
    pub open spec fn children_text(self, indent: nat) -> Seq<char>
        decreases self, 0nat,
    {
        match self {
            NodeView::Begin { statements, .. } => list_text(statements, indent, statements.len()),
            NodeView::Class { name, superclass, body, .. } => child_text(*name, indent)
                + child_or_nil_text(superclass, indent)
                + child_or_nil_text(body, indent),
            NodeView::Cvasgn { name, value, .. } => (", "@ + quoted(name))
                + optional_child_text(value, indent),
            NodeView::ForwardArg { .. } => Seq::empty(),
            NodeView::Hash { pairs, .. } => list_text(pairs, indent, pairs.len()),
            NodeView::Mlhs { items, .. } => list_text(items, indent, items.len()),
            NodeView::Module { name, body, .. } => child_text(*name, indent)
                + child_or_nil_text(body, indent),
            NodeView::Nil { .. } => Seq::empty(),
            NodeView::OrAsgn { recv, value, .. } => child_text(*recv, indent)
                + child_text(*value, indent),
            NodeView::Pair { key, value, .. } => child_text(*key, indent)
                + child_text(*value, indent),
            NodeView::Retry { .. } => Seq::empty(),
            NodeView::Undef { names, .. } => list_text(names, indent, names.len()),
            NodeView::While { cond, body, .. } => child_text(*cond, indent)
                + child_or_nil_text(body, indent),
        }
    }
}

/// Appends the text of a child.
fn append_node(out: &mut String, node: &Node, deeper: &str, Ghost(indent): Ghost<nat>)
    requires
        deeper@ == indentation(indent + 1),
    ensures
        final(out)@ == old(out)@ + child_text(node@, indent),
    decreases node, 2nat,
{
    let text = node.inspect_at(deeper, Ghost(indent + 1));
    out.append(",\n");
    out.append(text.as_str());
    assert(out@ =~= old(out)@ + child_text(node@, indent));
}

/// Appends the text of a child, or `, nil` when it is absent.
fn append_node_or_nil(
    out: &mut String,
    node: &Option<Box<Node>>,
    deeper: &str,
    Ghost(indent): Ghost<nat>,
)
    requires
        deeper@ == indentation(indent + 1),
    ensures
        final(out)@ == old(out)@ + child_or_nil_text(optional_tree(*node), indent),
    decreases node, 3nat,
{
    match node {
        Some(inner) => append_node(out, inner, deeper, Ghost(indent)),
        None => out.append(", nil"),
    }
}

/// Appends the text of a child, or nothing when it is absent.
fn append_maybe_node(
    out: &mut String,
    node: &Option<Box<Node>>,
    deeper: &str,
    Ghost(indent): Ghost<nat>,
)
    requires
        deeper@ == indentation(indent + 1),
    ensures
        final(out)@ == old(out)@ + optional_child_text(optional_tree(*node), indent),
    decreases node, 3nat,
{
    match node {
        Some(inner) => append_node(out, inner, deeper, Ghost(indent)),
        None => {
            assert(out@ + Seq::<char>::empty() =~= out@);
        },
    }
}

/// Appends the text of each of `nodes`.
fn append_nodes(out: &mut String, nodes: &Vec<Node>, deeper: &str, Ghost(indent): Ghost<nat>)
    requires
        deeper@ == indentation(indent + 1),
    ensures
        final(out)@ == old(out)@ + list_text(trees(nodes@), indent, nodes@.len()),
    decreases nodes, 3nat,
{
    let ghost children = trees(nodes@);
    let mut i: usize = 0;
    assert(out@ + Seq::<char>::empty() =~= out@);
    while i < nodes.len()
        invariant
            deeper@ == indentation(indent + 1),
            children == trees(nodes@),
            i <= nodes@.len(),
            out@ == old(out)@ + list_text(children, indent, i as nat),
        decreases nodes@.len() - i,
    {
        let ghost before = out@;
        append_node(out, &nodes[i], deeper, Ghost(indent));
        proof {
            assert(children[i as int] == nodes@[i as int]@);
            assert(out@ =~= old(out)@ + list_text(children, indent, (i + 1) as nat));
        }
        i = i + 1;
    }
}

/// Appends `shown`, the text of a string between its quotes, behind `, `.
pub fn append_shown(out: &mut String, shown: &str)
    ensures
        final(out)@ == old(out)@ + (", "@ + shown@),
{
    out.append(", ");
    out.append(shown);
    assert(out@ =~= old(out)@ + (", "@ + shown@));
}

/// Appends a string as `quoted` shows it, behind `, `.
fn append_str(out: &mut String, text: &String)
    ensures
        final(out)@ == old(out)@ + (", "@ + quoted(text@)),
{
    let shown = debug_quoted(text.as_str());
    append_shown(out, shown.as_str());
}

impl Node {
    /// The text of the node at depth `indent`, in the style of
    /// S-expressions: `s(:kind` and what the node holds beside its ranges,
    /// each child on a line of its own and one level deeper.
    pub fn inspect(&self, indent: usize) -> (r: String)
        ensures
            r@ == self@.inspect(indent as nat),
    {
        let mut prefix = String::new();
        let mut i: usize = 0;
        while i < indent
            invariant
                i <= indent,
                prefix@ == indentation(i as nat),
            decreases indent - i,
        {
            prefix.append("  ");
            i = i + 1;
        }
        self.inspect_at(prefix.as_str(), Ghost(indent as nat))
    }

    /// The text of the node at depth `indent`, given the indentation of that
    /// depth.
    fn inspect_at(&self, prefix: &str, Ghost(indent): Ghost<nat>) -> (r: String)
        requires
            prefix@ == indentation(indent),
        ensures
            r@ == self@.inspect(indent),
        decreases self, 1nat,
    {
        let mut out = String::from_str(prefix);
        out.append("s(:");
        out.append(self.str_type());
        let deeper = String::from_str(prefix).concat("  ");
        self.append_children(&mut out, deeper.as_str(), Ghost(indent));
        out.append(")");
        assert(out@ =~= self@.inspect(indent));
        out
    }

    /// Appends the text of what the node holds beside its ranges.
    fn append_children(&self, out: &mut String, deeper: &str, Ghost(indent): Ghost<nat>)
        requires
            deeper@ == indentation(indent + 1),
        ensures
            final(out)@ == old(out)@ + self@.children_text(indent),
        decreases self, 0nat,
    {
        proof {
            lemma_children_trees(*self);
        }
        match self {
            Node::Begin(n) => {
                append_nodes(out, &n.statements, deeper, Ghost(indent));
                assert(out@ =~= old(out)@ + self@.children_text(indent));
            },
            Node::Class(n) => {
                append_node(out, &n.name, deeper, Ghost(indent));
                append_node_or_nil(out, &n.superclass, deeper, Ghost(indent));
                append_node_or_nil(out, &n.body, deeper, Ghost(indent));
                assert(out@ =~= old(out)@ + self@.children_text(indent));
            },
            Node::Cvasgn(n) => {
                append_str(out, &n.name);
                append_maybe_node(out, &n.value, deeper, Ghost(indent));
                assert(out@ =~= old(out)@ + self@.children_text(indent));
            },
            Node::ForwardArg(_) => {
                assert(out@ + Seq::<char>::empty() =~= out@);
            },
            Node::Hash(n) => {
                append_nodes(out, &n.pairs, deeper, Ghost(indent));
                assert(out@ =~= old(out)@ + self@.children_text(indent));
            },
            Node::Mlhs(n) => {
                append_nodes(out, &n.items, deeper, Ghost(indent));
                assert(out@ =~= old(out)@ + self@.children_text(indent));
            },
            Node::Module(n) => {
                append_node(out, &n.name, deeper, Ghost(indent));
                append_node_or_nil(out, &n.body, deeper, Ghost(indent));
                assert(out@ =~= old(out)@ + self@.children_text(indent));
            },
            Node::Nil(_) => {
                assert(out@ + Seq::<char>::empty() =~= out@);
            },
            Node::OrAsgn(n) => {
                append_node(out, &n.recv, deeper, Ghost(indent));
                append_node(out, &n.value, deeper, Ghost(indent));
                assert(out@ =~= old(out)@ + self@.children_text(indent));
            },
            Node::Pair(n) => {
                append_node(out, &n.key, deeper, Ghost(indent));
                append_node(out, &n.value, deeper, Ghost(indent));
                assert(out@ =~= old(out)@ + self@.children_text(indent));
            },
            Node::Retry(_) => {
                assert(out@ + Seq::<char>::empty() =~= out@);
            },
            Node::Undef(n) => {
                append_nodes(out, &n.names, deeper, Ghost(indent));
                assert(out@ =~= old(out)@ + self@.children_text(indent));
            },
            Node::While(n) => {
                append_node(out, &n.cond, deeper, Ghost(indent));
                append_node_or_nil(out, &n.body, deeper, Ghost(indent));
                assert(out@ =~= old(out)@ + self@.children_text(indent));
            },
        }
    }
}

} // verus!
