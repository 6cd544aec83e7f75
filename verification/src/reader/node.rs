//! The document as a tree of nodes.

use vstd::prelude::*;

use crate::reader::tape::{
    parse_tape, tape_len, tape_of, tape_operator, tape_scalar, tape_shape, tape_tokens, Shape,
    Token,
};

verus! {

/// One node of a parsed document.
///
/// A container holds its children in document order, keys and values alike:
/// `{ a = b }` is an object with the two children `a` and `b`, and `{ a b }`
/// is an array with the same two children.
#[derive(Debug, PartialEq, Eq)]
pub enum Node {
    /// A container that was written as a list of values.
    Array { mixed: bool, items: Vec<Node> },
    /// A container that was written as a list of `key = value` fields.
    Object { mixed: bool, items: Vec<Node> },
    /// The place in a container where fields give way to bare values.
    MixedContainer,
    /// A scalar written without quotes.
    Unquoted(Vec<u8>),
    /// A scalar written between quotes.
    Quoted(Vec<u8>),
    /// A parameter, `[[name] ... ]`.
    Parameter(Vec<u8>),
    /// An undefined parameter, `[[!name] ... ]`.
    UndefinedParameter(Vec<u8>),
    /// An operator other than `=`, by its symbol.
    Operator(String),
    /// A word in front of a container, as `rgb` in `rgb { 1 2 3 }`.
    Header(Vec<u8>),
}

/// The mathematical value of a [`Node`].
pub enum NodeView {
    Array { mixed: bool, items: Seq<NodeView> },
    Object { mixed: bool, items: Seq<NodeView> },
    MixedContainer,
    Unquoted(Seq<u8>),
    Quoted(Seq<u8>),
    Parameter(Seq<u8>),
    UndefinedParameter(Seq<u8>),
    Operator(Seq<char>),
    Header(Seq<u8>),
}

impl DeepView for Node {
    type V = NodeView;

    open spec fn deep_view(&self) -> NodeView
        decreases self,
    {
        match self {
            Node::Array { mixed, items } => NodeView::Array {
                mixed: *mixed,
                items: children_view(items),
            },
            Node::Object { mixed, items } => NodeView::Object {
                mixed: *mixed,
                items: children_view(items),
            },
            Node::MixedContainer => NodeView::MixedContainer,
            Node::Unquoted(bytes) => NodeView::Unquoted(bytes@),
            Node::Quoted(bytes) => NodeView::Quoted(bytes@),
            Node::Parameter(bytes) => NodeView::Parameter(bytes@),
            Node::UndefinedParameter(bytes) => NodeView::UndefinedParameter(bytes@),
            Node::Operator(symbol) => NodeView::Operator(symbol@),
            Node::Header(bytes) => NodeView::Header(bytes@),
        }
    }
}

/// The values of a container's children, in order.
pub open spec fn children_view(items: &Vec<Node>) -> Seq<NodeView>
    decreases items,
{
    Seq::new(
        items.len() as nat,
        |i: int|
            if 0 <= i < items.len() {
                items[i].deep_view()
            } else {
                NodeView::MixedContainer
            },
    )
}

/// The children of a container are viewed as any vector of nodes is.
pub broadcast proof fn children_view_is_deep_view(items: &Vec<Node>)
    ensures
        #[trigger] children_view(items) == items.deep_view(),
{
    assert(children_view(items) =~= items.deep_view());
}

/// The node that a token other than a container or an `End` stands for.
pub open spec fn leaf_of(token: Token) -> NodeView {
    match token {
        Token::Unquoted(bytes) => NodeView::Unquoted(bytes),
        Token::Quoted(bytes) => NodeView::Quoted(bytes),
        Token::Parameter(bytes) => NodeView::Parameter(bytes),
        Token::UndefinedParameter(bytes) => NodeView::UndefinedParameter(bytes),
        Token::Operator(symbol) => NodeView::Operator(symbol),
        Token::Header(bytes) => NodeView::Header(bytes),
        _ => NodeView::MixedContainer,
    }
}

/// `first` in front of the nodes in `rest`, where there are any.
pub open spec fn before(first: NodeView, rest: Option<Seq<NodeView>>) -> Option<Seq<NodeView>> {
    match rest {
        Some(nodes) => Some(seq![first] + nodes),
        None => None,
    }
}

/// The nodes that the tokens in `[lo, hi)` stand for.
///
/// A container takes the tokens up to its `End` as its children. The result
/// is `None` where a container does not close inside the range, or where an
/// `End` stands in the place of a node.
pub open spec fn nodes_of(tokens: Seq<Token>, lo: int, hi: int) -> Option<Seq<NodeView>>
    decreases hi - lo,
{
    if lo >= hi {
        Some(Seq::empty())
    } else {
        match tokens[lo] {
            Token::Array { end, mixed } => {
                if lo < end && end < hi {
                    match nodes_of(tokens, lo + 1, end as int) {
                        Some(items) => before(
                            NodeView::Array { mixed, items },
                            nodes_of(tokens, end + 1, hi),
                        ),
                        None => None,
                    }
                } else {
                    None
                }
            },
            Token::Object { end, mixed } => {
                if lo < end && end < hi {
                    match nodes_of(tokens, lo + 1, end as int) {
                        Some(items) => before(
                            NodeView::Object { mixed, items },
                            nodes_of(tokens, end + 1, hi),
                        ),
                        None => None,
                    }
                } else {
                    None
                }
            },
            Token::End(_) => None,
            token => before(leaf_of(token), nodes_of(tokens, lo + 1, hi)),
        }
    }
}

/// What a document's bytes parse to: the nodes at its top level, or the
/// message of the failure.
pub open spec fn document_of(data: Seq<u8>) -> Result<Seq<NodeView>, Seq<char>> {
    match tape_of(data) {
        Ok(tokens) => match nodes_of(tokens, 0, tokens.len() as int) {
            Some(nodes) => Ok(nodes),
            None => Err("malformed token tape"@),
        },
        Err(message) => Err(message),
    }
}

/// `done` in front of the nodes in `rest`, where there are any.
pub open spec fn extended(done: Seq<NodeView>, rest: Option<Seq<NodeView>>) -> Option<
    Seq<NodeView>,
> {
    match rest {
        Some(nodes) => Some(done + nodes),
        None => None,
    }
}

fn build(tape: &jomini::TextTape<'_>, lo: usize, hi: usize) -> (r: Option<Vec<Node>>)
    requires
        lo <= hi <= tape_tokens(tape).len(),
    ensures
        r.deep_view() == nodes_of(tape_tokens(tape), lo as int, hi as int),
    decreases hi - lo,
{
    let ghost tokens = tape_tokens(tape);
    let mut out: Vec<Node> = Vec::new();
    let mut i: usize = lo;
    while i < hi
        invariant
            lo <= i <= hi <= tokens.len(),
            tokens == tape_tokens(tape),
            nodes_of(tokens, lo as int, hi as int) == extended(
                out.deep_view(),
                nodes_of(tokens, i as int, hi as int),
            ),
        decreases hi - i,
    {
        let ghost done = out.deep_view();
        let ghost node;
        let next: usize;
        match tape_shape(tape, i) {
            Shape::Array { end, mixed } => {
                if !(i < end && end < hi) {
                    return None;
                }
                match build(tape, i + 1, end) {
                    Some(items) => {
                        let child = Node::Array { mixed, items };
                        proof {
                            node = child.deep_view();
                            assert(node == NodeView::Array { mixed, items: children_view(&items) });
                            children_view_is_deep_view(&items);
                            assert(nodes_of(tokens, i as int, hi as int) == before(
                                node,
                                nodes_of(tokens, end + 1, hi as int),
                            ));
                        }
                        out.push(child);
                    },
                    None => {
                        return None;
                    },
                }
                next = end + 1;
            },
            Shape::Object { end, mixed } => {
                if !(i < end && end < hi) {
                    return None;
                }
                match build(tape, i + 1, end) {
                    Some(items) => {
                        let child = Node::Object { mixed, items };
                        proof {
                            node = child.deep_view();
                            assert(node == NodeView::Object { mixed, items: children_view(&items) });
                            children_view_is_deep_view(&items);
                            assert(nodes_of(tokens, i as int, hi as int) == before(
                                node,
                                nodes_of(tokens, end + 1, hi as int),
                            ));
                        }
                        out.push(child);
                    },
                    None => {
                        return None;
                    },
                }
                next = end + 1;
            },
            Shape::End(_) => {
                return None;
            },
            Shape::MixedContainer => {
                proof {
                    node = NodeView::MixedContainer;
                    assert(nodes_of(tokens, i as int, hi as int) == before(
                        node,
                        nodes_of(tokens, i + 1, hi as int),
                    ));
                }
                out.push(Node::MixedContainer);
                next = i + 1;
            },
            Shape::Operator => {
                match tape_operator(tape, i) {
                    Some(symbol) => {
                        proof {
                            node = NodeView::Operator(symbol@);
                            assert(nodes_of(tokens, i as int, hi as int) == before(
                                node,
                                nodes_of(tokens, i + 1, hi as int),
                            ));
                        }
                        out.push(Node::Operator(symbol));
                    },
                    None => {
                        return None;
                    },
                }
                next = i + 1;
            },
            shape => {
                match tape_scalar(tape, i) {
                    Some(bytes) => {
                        let child = match shape {
                            Shape::Unquoted => Node::Unquoted(bytes),
                            Shape::Quoted => Node::Quoted(bytes),
                            Shape::Parameter => Node::Parameter(bytes),
                            Shape::UndefinedParameter => Node::UndefinedParameter(bytes),
                            _ => Node::Header(bytes),
                        };
                        proof {
                            node = child.deep_view();
                            assert(nodes_of(tokens, i as int, hi as int) == before(
                                node,
                                nodes_of(tokens, i + 1, hi as int),
                            ));
                        }
                        out.push(child);
                    },
                    None => {
                        return None;
                    },
                }
                next = i + 1;
            },
        }
        proof {
            assert(out.deep_view() =~= done.push(node));
            let rest = nodes_of(tokens, next as int, hi as int);
            if rest is Some {
                assert(done + (seq![node] + rest->0) =~= done.push(node) + rest->0);
            }
        }
        i = next;
    }
    proof {
        assert(out.deep_view() + Seq::<NodeView>::empty() =~= out.deep_view());
    }
    Some(out)
}

/// Parses a document into the nodes at its top level.
///
/// Fails with the parser's message where the bytes are no document.
pub fn parse_document(data: &[u8]) -> (r: Result<Vec<Node>, String>)
    ensures
        match r {
            Ok(nodes) => document_of(data@) == Ok::<Seq<NodeView>, Seq<char>>(nodes.deep_view()),
            Err(message) => document_of(data@) == Err::<Seq<NodeView>, Seq<char>>(message@),
        },
{
    match parse_tape(data) {
        Ok(tape) => {
            let n = tape_len(&tape);
            match build(&tape, 0, n) {
                Some(nodes) => Ok(nodes),
                None => Err("malformed token tape".to_string()),
            }
        },
        Err(message) => Err(message),
    }
}

} // verus!
