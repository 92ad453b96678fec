//! The boundary to the `select` crate, which parses a page and answers
//! structural queries on it, and to the parser behind it, `html5ever` with
//! the tree of `markup5ever_rcdom`, which is asked how deep a page nests
//! before `select` is let at it. Nothing in this file is proved: each function
//! states what the crate's function of the same purpose returns, by a name
//! where the result is too involved to write down.

use html5ever::tendril::TendrilSink;
use markup5ever_rcdom::RcDom;
use select::document::Document;
use select::node::Node;
use select::predicate::{Class, Name, Predicate};
use std::rc::Rc;
use vstd::prelude::*;

verus! {

/// `select::document::Document`: a parsed page. Opaque to the proofs.
#[verifier::external_type_specification]
#[verifier::external_body]
pub struct ExDocument(select::document::Document);

/// `select::node::Node`: one node of a parsed page, together with the page it
/// belongs to. Opaque to the proofs.
#[verifier::external_type_specification]
#[verifier::external_body]
pub struct ExNode<'a>(select::node::Node<'a>);

/// `markup5ever_rcdom::Node`: one node of the tree that the parser builds.
/// Opaque to the proofs.
#[verifier::external_type_specification]
#[verifier::external_body]
pub struct ExTreeNode(markup5ever_rcdom::Node);

/// The longest text, in characters, that is handed to the parser. The parser
/// copies text into buffers that grow by doubling and panics where one would
/// pass 2^31 bytes; a character takes four bytes at most, in the text and in
/// what the parser makes of it, so no buffer of a text of this length does.
pub const MAX_MARKUP_LEN: usize = 0x1fff_ffff;

/// The most levels of a tree that is handed on to `select`. `Document::from`
/// and `Node::text` walk the tree by a function that calls itself once for
/// each level, so a tree that is too deep exhausts the stack. With this many
/// levels the walk takes a few hundred kilobytes of it, a fraction of what a
/// thread has as `std` starts it.
pub const MAX_NESTING: usize = 256;

/// The root of the tree that the parser builds from a page's text.
pub uninterp spec fn parsed_tree(markup: Seq<char>) -> Rc<markup5ever_rcdom::Node>;

/// The children of a node of the parser's tree, in document order.
pub uninterp spec fn tree_children(node: Rc<markup5ever_rcdom::Node>) -> Seq<
    Rc<markup5ever_rcdom::Node>,
>;

/// Whether the tree below a node, the node counted, has `levels` levels at
/// most.
pub open spec fn within_depth(node: Rc<markup5ever_rcdom::Node>, levels: nat) -> bool
    decreases levels,
{
    &&& levels > 0
    &&& forall|i: int|
        0 <= i < tree_children(node).len() ==> within_depth(
            #[trigger] tree_children(node)[i],
            (levels - 1) as nat,
        )
}

/// Whether a text is small enough for the parser and for `select`: not too
/// long, and not nested too deeply.
pub open spec fn fits_parser(markup: Seq<char>) -> bool {
    markup.len() <= MAX_MARKUP_LEN && within_depth(parsed_tree(markup), MAX_NESTING as nat)
}

/// Calls `html5ever::parse_document` with the tree of `markup5ever_rcdom` and
/// the default options, as `Document::from` does, feeds it the text of a page
/// and takes the root of the tree. The result is a function of the text
/// alone. The parser keeps its open elements in a list and does not call
/// itself, so it returns however deep the page nests; it panics on a text
/// that is too long, which is left out.
#[verifier::external_body]
pub(crate) fn parse_tree(markup: &str) -> (root: Rc<markup5ever_rcdom::Node>)
    requires
        markup@.len() <= MAX_MARKUP_LEN,
    ensures
        root == parsed_tree(markup@),
{
    html5ever::parse_document(RcDom::default(), Default::default()).one(markup).document
}

/// Reads the field `children` of a node of the parser's tree.
#[verifier::external_body]
pub(crate) fn children_of(node: &Rc<markup5ever_rcdom::Node>) -> (children: Vec<
    Rc<markup5ever_rcdom::Node>,
>)
    ensures
        children@ == tree_children(*node),
{
    node.children.borrow().clone()
}

/// The document that `Document::from` builds from a page's text.
pub uninterp spec fn parsed_document(markup: Seq<char>) -> Document;

/// The nodes of a document that carry a class, in document order.
pub uninterp spec fn document_class_nodes(document: &Document, class: Seq<char>) -> Seq<Node<'_>>;

/// The first node below `node`, in document order, that carries a class.
pub uninterp spec fn first_class_node(node: Node<'_>, class: Seq<char>) -> Option<Node<'_>>;

/// The first node below `node` that carries the class `inner` and has an
/// ancestor carrying the class `outer`.
pub uninterp spec fn first_nested_class_node(
    node: Node<'_>,
    outer: Seq<char>,
    inner: Seq<char>,
) -> Option<Node<'_>>;

/// The first element below `node` that has the tag name `name` and an ancestor
/// carrying the class `outer`.
pub uninterp spec fn first_nested_named_node(
    node: Node<'_>,
    outer: Seq<char>,
    name: Seq<char>,
) -> Option<Node<'_>>;

/// The text of a node and of everything below it, concatenated.
pub uninterp spec fn node_text(node: Node<'_>) -> Seq<char>;

/// The value of an attribute of a node, where the node is an element that
/// has the attribute.
pub uninterp spec fn node_attr(node: Node<'_>, name: Seq<char>) -> Option<Seq<char>>;

/// Calls `Document::from` on the text of a page. The result is a function of
/// the text alone. The call parses the text as `parse_tree` does and walks
/// the tree by a function that calls itself once for each level: it panics
/// on a text that is too long and exhausts the stack on a tree that is too
/// deep, so only a text that fits is admitted.
#[verifier::external_body]
pub(crate) fn parse(markup: &str) -> (document: Document)
    requires
        fits_parser(markup@),
    ensures
        document == parsed_document(markup@),
{
    Document::from(markup)
}

/// Calls `Document::find` with the predicate `Class` and collects what it
/// yields, in the order in which it yields it.
#[verifier::external_body]
pub(crate) fn find_class<'a>(document: &'a Document, class: &str) -> (nodes: Vec<Node<'a>>)
    ensures
        nodes@ == document_class_nodes(document, class@),
{
    document.find(Class(class)).collect()
}

/// Calls `Node::find` with the predicate `Class` and takes the first node
/// that it yields.
#[verifier::external_body]
pub(crate) fn first_of_class<'a>(node: &Node<'a>, class: &str) -> (found: Option<Node<'a>>)
    ensures
        found == first_class_node(*node, class@),
{
    node.find(Class(class)).next()
}

/// Calls `Node::find` with `Class(outer).descendant(Class(inner))` and takes
/// the first node that it yields.
#[verifier::external_body]
pub(crate) fn first_of_nested_class<'a>(node: &Node<'a>, outer: &str, inner: &str) -> (found:
    Option<Node<'a>>)
    ensures
        found == first_nested_class_node(*node, outer@, inner@),
{
    node.find(Class(outer).descendant(Class(inner))).next()
}

/// Calls `Node::find` with `Class(outer).descendant(Name(name))` and takes the
/// first node that it yields.
#[verifier::external_body]
pub(crate) fn first_of_nested_name<'a>(node: &Node<'a>, outer: &str, name: &str) -> (found:
    Option<Node<'a>>)
    ensures
        found == first_nested_named_node(*node, outer@, name@),
{
    node.find(Class(outer).descendant(Name(name))).next()
}

/// Calls `Node::text`, which calls itself once for each level below the
/// node. A node comes of a document that `parse` made, so the levels below it
/// are fewer than `MAX_NESTING`.
#[verifier::external_body]
pub(crate) fn text_of(node: &Node<'_>) -> (text: String)
    ensures
        text@ == node_text(*node),
{
    node.text()
}

/// Calls `Node::attr`.
#[verifier::external_body]
pub(crate) fn attr_of<'a>(node: &Node<'a>, name: &str) -> (value: Option<&'a str>)
    ensures
        match value {
            Some(v) => node_attr(*node, name@) == Some(v@),
            None => node_attr(*node, name@) is None,
        },
{
    node.attr(name)
}

} // verus!
