//! The labeled hash tree and its mathematical model.

use vstd::prelude::*;
use crate::bytes::bytes_eq;

verus! {

/// Mathematical model of a hash tree: the value that contracts speak of.
pub enum Tree {
    /// No data at this position.
    Empty,
    /// Split point of a sorted structure.
    Fork(Box<Tree>, Box<Tree>),
    /// A named child.
    Labeled(Seq<u8>, Box<Tree>),
    /// Terminal data.
    Leaf(Seq<u8>),
    /// A hidden subtree, known only by its digest.
    Pruned(Seq<u8>),
}

/// A partial, provable view of replicated state.
#[derive(Debug, PartialEq, Eq)]
pub enum HashTree {
    /// No data at this position.
    Empty,
    /// Split point of a sorted structure: labels on the left sort before
    /// labels on the right.
    Fork(Box<HashTree>, Box<HashTree>),
    /// A named child.
    Labeled(Vec<u8>, Box<HashTree>),
    /// Terminal data.
    Leaf(Vec<u8>),
    /// A subtree hidden by the server; only its digest is known.
    Pruned([u8; 32]),
}

impl HashTree {
    /// The tree this value stands for.
    pub open spec fn model(self) -> Tree
        decreases self,
    {
        match self {
            HashTree::Empty => Tree::Empty,
            HashTree::Fork(l, r) => Tree::Fork(Box::new(l.model()), Box::new(r.model())),
            HashTree::Labeled(label, sub) => Tree::Labeled(label@, Box::new(sub.model())),
            HashTree::Leaf(value) => Tree::Leaf(value@),
            HashTree::Pruned(digest) => Tree::Pruned(digest@),
        }
    }
}

impl HashTree {
    /// Tells whether two trees are the same: the same shape, labels, values
    /// and digests.
    pub fn same_as(&self, other: &HashTree) -> (out: bool)
        ensures
            out == (self@ == other@),
        decreases self,
    {
        match (self, other) {
            (HashTree::Empty, HashTree::Empty) => true,
            (HashTree::Leaf(a), HashTree::Leaf(b)) => bytes_eq(a.as_slice(), b.as_slice()),
            (HashTree::Pruned(a), HashTree::Pruned(b)) => bytes_eq(a.as_slice(), b.as_slice()),
            (HashTree::Labeled(la, sa), HashTree::Labeled(lb, sb)) => {
                bytes_eq(la.as_slice(), lb.as_slice()) && sa.same_as(sb)
            },
            (HashTree::Fork(la, ra), HashTree::Fork(lb, rb)) => la.same_as(lb) && ra.same_as(rb),
            _ => false,
        }
    }
}

impl View for HashTree {
    type V = Tree;

    open spec fn view(&self) -> Tree {
        self.model()
    }
}

impl Tree {
    /// Every pruned node carries a digest of exactly 32 bytes.
    pub open spec fn well_formed(self) -> bool
        decreases self,
    {
        match self {
            Tree::Empty => true,
            Tree::Fork(l, r) => l.well_formed() && r.well_formed(),
            Tree::Labeled(_, sub) => sub.well_formed(),
            Tree::Leaf(_) => true,
            Tree::Pruned(d) => d.len() == 32,
        }
    }

    /// No part of the tree is hidden.
    pub open spec fn complete(self) -> bool
        decreases self,
    {
        match self {
            Tree::Empty => true,
            Tree::Fork(l, r) => l.complete() && r.complete(),
            Tree::Labeled(_, sub) => sub.complete(),
            Tree::Leaf(_) => true,
            Tree::Pruned(_) => false,
        }
    }

    /// A complete tree is well formed.
    pub proof fn lemma_complete_well_formed(self)
        requires
            self.complete(),
        ensures
            self.well_formed(),
        decreases self,
    {
        match self {
            Tree::Fork(l, r) => {
                l.lemma_complete_well_formed();
                r.lemma_complete_well_formed();
            },
            Tree::Labeled(_, sub) => {
                sub.lemma_complete_well_formed();
            },
            _ => {},
        }
    }
}

/// The model of an executable tree is always well formed.
pub proof fn lemma_view_well_formed(t: &HashTree)
    ensures
        t@.well_formed(),
    decreases t,
{
    match t {
        HashTree::Fork(l, r) => {
            lemma_view_well_formed(l);
            lemma_view_well_formed(r);
        },
        HashTree::Labeled(_, sub) => {
            lemma_view_well_formed(sub);
        },
        _ => {},
    }
}

} // verus!
