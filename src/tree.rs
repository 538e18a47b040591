//! The expression tree.
use vstd::prelude::*;

verus! {

/// A node of an expression tree: a numeric leaf, or an operator applied to
/// two exclusively owned subtrees.
#[derive(Debug, PartialEq)]
pub enum Node {
    /// A binary64 number, as its bit pattern.
    Leaf(u64),
    /// An internal node.
    Operation(Container),
}

/// An internal node: an operator string and its two operands.
#[derive(Debug, PartialEq)]
pub struct Container {
    pub operation: String,
    pub left: Box<Node>,
    pub right: Box<Node>,
}

impl Node {
    /// A leaf holding the given bit pattern.
    pub fn leaf(bits: u64) -> (r: Node)
        ensures
            r == Node::Leaf(bits),
    {
        Node::Leaf(bits)
    }

    /// An internal node built from its parts.
    pub fn operation(operation: String, left: Node, right: Node) -> (r: Node)
        ensures
            r == Node::Operation(Container { operation, left: Box::new(left), right: Box::new(right) }),
    {
        Node::Operation(Container { operation, left: Box::new(left), right: Box::new(right) })
    }
}

} // verus!
