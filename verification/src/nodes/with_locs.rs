//! A node shown with its ranges: the text of the node, and under it a line
//! for each range, which marks the bytes of the range.

use vstd::prelude::*;
use crate::loc::Loc;
use crate::nodes::node::{lemma_children_trees, optional_tree, trees, Node, NodeView};

verus! {

/// The texts of `lines`, one for one.
pub open spec fn texts(lines: Seq<String>) -> Seq<Seq<char>> {
    Seq::new(lines.len(), |i: int| lines[i]@)
}

/// The line of a range that may be absent.
pub open spec fn optional_underline(loc: Option<Loc>, name: Seq<char>) -> Seq<Seq<char>> {
    match loc {
        Some(loc) => seq![loc.underline(name)],
        None => Seq::empty(),
    }
}

/// The lines of a child that may be absent.
pub open spec fn optional_lines(child: Option<Box<NodeView>>) -> Seq<Seq<char>>
    decreases child, 1nat,
{
    match child {
        Some(inner) => inner.lines_with_locs(),
        None => Seq::empty(),
    }
}

/// The lines of the first `count` of `children`, one child after another.
pub open spec fn list_lines(children: Seq<NodeView>, count: nat) -> Seq<Seq<char>>
    decreases children, count,
{
    if count == 0 || count > children.len() {
        Seq::empty()
    } else {
        list_lines(children, (count - 1) as nat) + children[count - 1].lines_with_locs()
    }
}

impl NodeView {
    /// The lines that show the tree with its ranges: the text of the tree,
    /// and then, field by field in the order of the fields, the lines of
    /// each child and a line for each range that is there, named by its
    /// field.
    pub open spec fn lines_with_locs(self) -> Seq<Seq<char>>
        decreases self, 0nat,
    {
        let head = seq![self.inspect(0)];
        match self {
            NodeView::Begin { statements, begin_l, end_l, expression_l, .. } => head
                + list_lines(statements, statements.len())
                + optional_underline(begin_l, "begin"@)
                + optional_underline(end_l, "end"@)
                + seq![expression_l.underline("expression"@)],
            NodeView::Class {
                name,
                superclass,
                body,
                keyword_l,
                operator_l,
                end_l,
                expression_l,
                ..
            } => head
                + name.lines_with_locs()
                + optional_lines(superclass)
                + optional_lines(body)
                + seq![keyword_l.underline("keyword"@)]
                + optional_underline(operator_l, "operator"@)
                + seq![end_l.underline("end"@)]
                + seq![expression_l.underline("expression"@)],
            NodeView::Cvasgn { value, name_l, operator_l, expression_l, .. } => head
                + optional_lines(value)
                + seq![name_l.underline("name"@)]
                + optional_underline(operator_l, "operator"@)
                + seq![expression_l.underline("expression"@)],
            NodeView::ForwardArg { expression_l, .. } => head
                + seq![expression_l.underline("expression"@)],
            NodeView::Hash { pairs, begin_l, end_l, expression_l, .. } => head
                + list_lines(pairs, pairs.len())
                + optional_underline(begin_l, "begin"@)
                + optional_underline(end_l, "end"@)
                + seq![expression_l.underline("expression"@)],
            NodeView::Mlhs { items, begin_l, end_l, expression_l, .. } => head
                + list_lines(items, items.len())
                + optional_underline(begin_l, "begin"@)
                + optional_underline(end_l, "end"@)
                + seq![expression_l.underline("expression"@)],
            NodeView::Module { name, body, keyword_l, end_l, expression_l, .. } => head
                + name.lines_with_locs()
                + optional_lines(body)
                + seq![keyword_l.underline("keyword"@)]
                + seq![end_l.underline("end"@)]
                + seq![expression_l.underline("expression"@)],
            NodeView::Nil { expression_l, .. } => head
                + seq![expression_l.underline("expression"@)],
            NodeView::OrAsgn { recv, value, expression_l, operator_l, .. } => head
                + recv.lines_with_locs()
                + value.lines_with_locs()
                + seq![expression_l.underline("expression"@)]
                + seq![operator_l.underline("operator"@)],
            NodeView::Pair { key, value, operator_l, expression_l, .. } => head
                + key.lines_with_locs()
                + value.lines_with_locs()
                + seq![operator_l.underline("operator"@)]
                + seq![expression_l.underline("expression"@)],
            NodeView::Retry { expression_l, .. } => head
                + seq![expression_l.underline("expression"@)],
            NodeView::Undef { names, keyword_l, expression_l, .. } => head
                + list_lines(names, names.len())
                + seq![keyword_l.underline("keyword"@)]
                + seq![expression_l.underline("expression"@)],
            NodeView::While { cond, body, begin_l, end_l, keyword_l, expression_l, .. } => head
                + cond.lines_with_locs()
                + optional_lines(body)
                + optional_underline(begin_l, "begin"@)
                + optional_underline(end_l, "end"@)
                + seq![keyword_l.underline("keyword"@)]
                + seq![expression_l.underline("expression"@)],
        }
    }
}

/// Texts of lines put together are the texts of the first and then those
/// of the second.
proof fn lemma_texts_add(a: Seq<String>, b: Seq<String>)
    ensures
        texts(a + b) == texts(a) + texts(b),
{
    assert(texts(a + b) =~= texts(a) + texts(b));
}

/// Appends the line of a range.
fn add_loc(out: &mut Vec<String>, loc: &Loc, name: &str)
    ensures
        texts(final(out)@) == texts(old(out)@) + seq![loc.underline(name@)],
{
    out.push(loc.underlined(name));
    assert(texts(out@) =~= texts(old(out)@) + seq![loc.underline(name@)]);
}

/// Appends the line of a range, if the range is there.
fn add_optional_loc(out: &mut Vec<String>, loc: &Option<Loc>, name: &str)
    ensures
        texts(final(out)@) == texts(old(out)@) + optional_underline(*loc, name@),
{
    match loc {
        Some(loc) => add_loc(out, loc, name),
        None => {
            assert(texts(out@) + Seq::<Seq<char>>::empty() =~= texts(out@));
        },
    }
}

/// Appends the lines of a child.
fn add_node(out: &mut Vec<String>, node: &Node)
    ensures
        texts(final(out)@) == texts(old(out)@) + node@.lines_with_locs(),
    decreases node, 1nat,
{
    let mut lines = node.print_with_locs();
    proof {
        lemma_texts_add(out@, lines@);
    }
    out.append(&mut lines);
}

/// Appends the lines of a child, if the child is there.
fn add_optional_node(out: &mut Vec<String>, node: &Option<Box<Node>>)
    ensures
        texts(final(out)@) == texts(old(out)@) + optional_lines(optional_tree(*node)),
    decreases node, 2nat,
{
    match node {
        Some(inner) => add_node(out, inner),
        None => {
            assert(texts(out@) + Seq::<Seq<char>>::empty() =~= texts(out@));
        },
    }
}

/// Appends the lines of each of `nodes`.
fn add_nodes(out: &mut Vec<String>, nodes: &Vec<Node>)
    ensures
        texts(final(out)@) == texts(old(out)@) + list_lines(trees(nodes@), nodes@.len()),
    decreases nodes, 2nat,
{
    let ghost children = trees(nodes@);
    let mut lines: Vec<String> = Vec::new();
    let mut i: usize = 0;
    assert(texts(lines@) =~= list_lines(children, 0));
    while i < nodes.len()
        invariant
            children == trees(nodes@),
            i <= nodes@.len(),
            texts(lines@) == list_lines(children, i as nat),
        decreases nodes@.len() - i,
    {
        assert(children[i as int] == nodes@[i as int]@);
        add_node(&mut lines, &nodes[i]);
        i = i + 1;
    }
    proof {
        lemma_texts_add(out@, lines@);
    }
    out.append(&mut lines);
}

impl Node {
    /// The lines that show the node with its ranges, as `lines_with_locs`
    /// says: for printing one below the other under the source.
    pub fn print_with_locs(&self) -> (r: Vec<String>)
        ensures
            texts(r@) == self@.lines_with_locs(),
        decreases self, 0nat,
    {
        proof {
            lemma_children_trees(*self);
        }
        let mut out: Vec<String> = Vec::new();
        out.push(self.inspect(0));
        assert(texts(out@) =~= seq![self@.inspect(0)]);
        match self {
            Node::Begin(n) => {
                add_nodes(&mut out, &n.statements);
                add_optional_loc(&mut out, &n.begin_l, "begin");
                add_optional_loc(&mut out, &n.end_l, "end");
                add_loc(&mut out, &n.expression_l, "expression");
            },
            Node::Class(n) => {
                add_node(&mut out, &n.name);
                add_optional_node(&mut out, &n.superclass);
                add_optional_node(&mut out, &n.body);
                add_loc(&mut out, &n.keyword_l, "keyword");
                add_optional_loc(&mut out, &n.operator_l, "operator");
                add_loc(&mut out, &n.end_l, "end");
                add_loc(&mut out, &n.expression_l, "expression");
            },
            Node::Cvasgn(n) => {
                add_optional_node(&mut out, &n.value);
                add_loc(&mut out, &n.name_l, "name");
                add_optional_loc(&mut out, &n.operator_l, "operator");
                add_loc(&mut out, &n.expression_l, "expression");
            },
            Node::ForwardArg(n) => {
                add_loc(&mut out, &n.expression_l, "expression");
            },
            Node::Hash(n) => {
                add_nodes(&mut out, &n.pairs);
                add_optional_loc(&mut out, &n.begin_l, "begin");
                add_optional_loc(&mut out, &n.end_l, "end");
                add_loc(&mut out, &n.expression_l, "expression");
            },
            Node::Mlhs(n) => {
                add_nodes(&mut out, &n.items);
                add_optional_loc(&mut out, &n.begin_l, "begin");
                add_optional_loc(&mut out, &n.end_l, "end");
                add_loc(&mut out, &n.expression_l, "expression");
            },
            Node::Module(n) => {
                add_node(&mut out, &n.name);
                add_optional_node(&mut out, &n.body);
                add_loc(&mut out, &n.keyword_l, "keyword");
                add_loc(&mut out, &n.end_l, "end");
                add_loc(&mut out, &n.expression_l, "expression");
            },
            Node::Nil(n) => {
                add_loc(&mut out, &n.expression_l, "expression");
            },
            Node::OrAsgn(n) => {
                add_node(&mut out, &n.recv);
                add_node(&mut out, &n.value);
                add_loc(&mut out, &n.expression_l, "expression");
                add_loc(&mut out, &n.operator_l, "operator");
            },
            Node::Pair(n) => {
                add_node(&mut out, &n.key);
                add_node(&mut out, &n.value);
                add_loc(&mut out, &n.operator_l, "operator");
                add_loc(&mut out, &n.expression_l, "expression");
            },
            Node::Retry(n) => {
                add_loc(&mut out, &n.expression_l, "expression");
            },
            Node::Undef(n) => {
                add_nodes(&mut out, &n.names);
                add_loc(&mut out, &n.keyword_l, "keyword");
                add_loc(&mut out, &n.expression_l, "expression");
            },
            Node::While(n) => {
                add_node(&mut out, &n.cond);
                add_optional_node(&mut out, &n.body);
                add_optional_loc(&mut out, &n.begin_l, "begin");
                add_optional_loc(&mut out, &n.end_l, "end");
                add_loc(&mut out, &n.keyword_l, "keyword");
                add_loc(&mut out, &n.expression_l, "expression");
            },
        }
        out
    }
}

} // verus!
