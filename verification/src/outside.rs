//! The hash tree of `ic_certification`, and the passage between it and the
//! tree of this library.

use vstd::prelude::*;
use crate::tree::{HashTree, Tree};

verus! {

/// A tree of `ic_certification`, held as it is.
#[verifier::external_body]
pub struct OutsideTree {
    pub(crate) inner: ic_certification::HashTree,
}

/// A node of a tree of `ic_certification`, held as it is.
#[verifier::external_body]
pub struct OutsideNode {
    pub(crate) inner: ic_certification::HashTreeNode,
}

/// The tree that a tree of `ic_certification` holds.
pub uninterp spec fn outside_tree(t: OutsideTree) -> Tree;

/// The tree that a node of `ic_certification` holds.
pub uninterp spec fn outside_node(n: OutsideNode) -> Tree;

/// Calls `ic_certification::empty`, which makes an empty tree.
#[verifier::external_body]
fn outside_empty() -> (out: OutsideTree)
    ensures
        outside_tree(out) == Tree::Empty,
{
    OutsideTree { inner: ic_certification::empty() }
}

/// Calls `ic_certification::leaf`, which makes a leaf that holds the bytes
/// given.
#[verifier::external_body]
fn outside_leaf(value: &Vec<u8>) -> (out: OutsideTree)
    ensures
        outside_tree(out) == Tree::Leaf(value@),
{
    OutsideTree { inner: ic_certification::leaf(value.clone()) }
}

/// Calls `ic_certification::pruned`, which makes a pruned node that carries
/// the digest given.
#[verifier::external_body]
fn outside_pruned(digest: &[u8; 32]) -> (out: OutsideTree)
    ensures
        outside_tree(out) == Tree::Pruned(digest@),
{
    OutsideTree { inner: ic_certification::pruned(*digest) }
}

/// Calls `ic_certification::labeled`, which puts the label given above the
/// tree given.
#[verifier::external_body]
fn outside_labeled(label: &Vec<u8>, sub: OutsideTree) -> (out: OutsideTree)
    ensures
        outside_tree(out) == Tree::Labeled(label@, Box::new(outside_tree(sub))),
{
    OutsideTree { inner: ic_certification::labeled(label.clone(), sub.inner) }
}

/// Calls `ic_certification::fork`, which makes a fork of the two trees given,
/// the first on the left.
#[verifier::external_body]
fn outside_fork(left: OutsideTree, right: OutsideTree) -> (out: OutsideTree)
    ensures
        outside_tree(out) == Tree::Fork(
            Box::new(outside_tree(left)),
            Box::new(outside_tree(right)),
        ),
{
    OutsideTree { inner: ic_certification::fork(left.inner, right.inner) }
}

/// Builds the tree of `ic_certification` that holds what `tree` holds.
pub(crate) fn to_outside(tree: &HashTree) -> (out: OutsideTree)
    ensures
        outside_tree(out) == tree@,
    decreases tree,
{
    match tree {
        HashTree::Empty => outside_empty(),
        HashTree::Leaf(value) => outside_leaf(value),
        HashTree::Pruned(digest) => outside_pruned(digest),
        HashTree::Labeled(label, sub) => {
            let below = to_outside(sub);
            outside_labeled(label, below)
        },
        HashTree::Fork(left, right) => {
            let l = to_outside(left);
            let r = to_outside(right);
            outside_fork(l, r)
        },
    }
}

/// What a node of `ic_certification` is made of, one level deep.
pub enum NodeParts {
    /// An empty node.
    Empty,
    /// A fork, with its left and right child.
    Fork(OutsideNode, OutsideNode),
    /// A labeled node, with its label and the node below.
    Labeled(Vec<u8>, OutsideNode),
    /// A leaf, with its value.
    Leaf(Vec<u8>),
    /// A pruned node, with its digest.
    Pruned([u8; 32]),
}

impl NodeParts {
    /// The tree that these parts make up.
    pub open spec fn tree(self) -> Tree {
        match self {
            NodeParts::Empty => Tree::Empty,
            NodeParts::Fork(l, r) => Tree::Fork(
                Box::new(outside_node(l)),
                Box::new(outside_node(r)),
            ),
            NodeParts::Labeled(label, sub) => Tree::Labeled(label@, Box::new(outside_node(sub))),
            NodeParts::Leaf(value) => Tree::Leaf(value@),
            NodeParts::Pruned(digest) => Tree::Pruned(digest@),
        }
    }
}

/// Turns a tree of `ic_certification` into its root node, by the `From` that
/// the crate gives for it.
#[verifier::external_body]
pub(crate) fn outside_root(tree: OutsideTree) -> (out: OutsideNode)
    ensures
        outside_node(out) == outside_tree(tree),
{
    OutsideNode { inner: tree.inner.into() }
}

/// Takes a node of `ic_certification` apart, telling the five variants of
/// `HashTreeNode` from one another and moving out what each holds.
#[verifier::external_body]
fn outside_parts(node: OutsideNode) -> (out: NodeParts)
    ensures
        out.tree() == outside_node(node),
{
    match node.inner {
        ic_certification::HashTreeNode::Empty() => NodeParts::Empty,
        ic_certification::HashTreeNode::Fork(pair) => NodeParts::Fork(
            OutsideNode { inner: pair.0 },
            OutsideNode { inner: pair.1 },
        ),
        ic_certification::HashTreeNode::Labeled(label, sub) => NodeParts::Labeled(
            label.as_bytes().to_vec(),
            OutsideNode { inner: *sub },
        ),
        ic_certification::HashTreeNode::Leaf(value) => NodeParts::Leaf(value),
        ic_certification::HashTreeNode::Pruned(digest) => NodeParts::Pruned(digest),
    }
}

/// Builds the tree of this library that holds what `node` holds.
pub(crate) fn from_outside(node: OutsideNode) -> (out: HashTree)
    ensures
        out@ == outside_node(node),
    decreases outside_node(node),
{
    let ghost whole = outside_node(node);
    match outside_parts(node) {
        NodeParts::Empty => HashTree::Empty,
        NodeParts::Leaf(value) => HashTree::Leaf(value),
        NodeParts::Pruned(digest) => HashTree::Pruned(digest),
        NodeParts::Labeled(label, sub) => {
            assert(whole matches Tree::Labeled(_, below) && *below == outside_node(sub));
            let below = from_outside(sub);
            HashTree::Labeled(label, Box::new(below))
        },
        NodeParts::Fork(left, right) => {
            assert(whole matches Tree::Fork(l, r) && *l == outside_node(left) && *r
                == outside_node(right));
            let l = from_outside(left);
            let r = from_outside(right);
            HashTree::Fork(Box::new(l), Box::new(r))
        },
    }
}

} // verus!
