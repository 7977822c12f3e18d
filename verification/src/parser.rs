//! The node tree that a markup parser hands to the rendering core.

use vstd::prelude::*;

verus! {

/// An element node: a tag name, its attributes in source order, and its
/// children in document order.
#[derive(Debug)]
pub struct Node {
    pub name: String,
    pub attributes: Vec<(String, String)>,
    pub children: Vec<Element>,
}

/// One node of the parsed tree.
#[derive(Debug)]
pub enum Element {
    /// An element with a tag name.
    Node(Node),
    /// A comment, without its delimiters.
    Comment(String),
    /// A run of text.
    Text(String),
}

} // verus!
