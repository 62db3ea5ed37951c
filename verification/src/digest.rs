//! Canonical digest of a hash tree.
//!
//! Every kind of node hashes into a domain of its own: the hash input starts
//! with a tag that no other kind shares, so that trees of different shape
//! never hash the same input.

use vstd::prelude::*;
use crate::bytes::append_bytes;
use crate::hash::{sha256, sha256_bytes};
use crate::tree::{HashTree, Tree};

verus! {

/// Domain tag of an empty node: the length byte 17, then `ic-hashtree-empty`.
pub const TAG_EMPTY: [u8; 18] = [
    17, 0x69, 0x63, 0x2d, 0x68, 0x61, 0x73, 0x68, 0x74, 0x72, 0x65, 0x65, 0x2d,
    0x65, 0x6d, 0x70, 0x74, 0x79,
];

/// Domain tag of a leaf: the length byte 16, then `ic-hashtree-leaf`.
pub const TAG_LEAF: [u8; 17] = [
    16, 0x69, 0x63, 0x2d, 0x68, 0x61, 0x73, 0x68, 0x74, 0x72, 0x65, 0x65, 0x2d,
    0x6c, 0x65, 0x61, 0x66,
];

/// Domain tag of a fork: the length byte 16, then `ic-hashtree-fork`.
pub const TAG_FORK: [u8; 17] = [
    16, 0x69, 0x63, 0x2d, 0x68, 0x61, 0x73, 0x68, 0x74, 0x72, 0x65, 0x65, 0x2d,
    0x66, 0x6f, 0x72, 0x6b,
];

/// Domain tag of a labeled node: the length byte 19, then
/// `ic-hashtree-labeled`.
pub const TAG_LABELED: [u8; 20] = [
    19, 0x69, 0x63, 0x2d, 0x68, 0x61, 0x73, 0x68, 0x74, 0x72, 0x65, 0x65, 0x2d,
    0x6c, 0x61, 0x62, 0x65, 0x6c, 0x65, 0x64,
];

/// The bytes hashed for an empty node.
pub open spec fn empty_input() -> Seq<u8> {
    TAG_EMPTY@
}

/// The bytes hashed for a leaf that holds `value`.
pub open spec fn leaf_input(value: Seq<u8>) -> Seq<u8> {
    TAG_LEAF@ + value
}

/// The bytes hashed for a fork whose children have the digests `left` and
/// `right`.
pub open spec fn fork_input(left: Seq<u8>, right: Seq<u8>) -> Seq<u8> {
    TAG_FORK@ + left + right
}

/// The bytes hashed for a node named `label` above a subtree with the digest
/// `sub`.
pub open spec fn labeled_input(label: Seq<u8>, sub: Seq<u8>) -> Seq<u8> {
    TAG_LABELED@ + label + sub
}

/// The canonical digest of a tree. A pruned node stands for the digest it
/// carries, which is returned as it is.
pub open spec fn tree_digest(t: Tree) -> Seq<u8>
    decreases t,
{
    match t {
        Tree::Empty => sha256(empty_input())@,
        Tree::Leaf(value) => sha256(leaf_input(value))@,
        Tree::Pruned(digest) => digest,
        Tree::Labeled(label, sub) => sha256(labeled_input(label, tree_digest(*sub)))@,
        Tree::Fork(left, right) => sha256(
            fork_input(tree_digest(*left), tree_digest(*right)),
        )@,
    }
}

/// The digest of a well-formed tree has 32 bytes.
pub proof fn lemma_digest_len(t: Tree)
    requires
        t.well_formed(),
    ensures
        tree_digest(t).len() == 32,
{
}

impl HashTree {
    /// Computes the canonical digest of the tree, bottom-up.
    pub fn digest(&self) -> (out: [u8; 32])
        ensures
            out@ == tree_digest(self@),
        decreases self,
    {
        match self {
            HashTree::Empty => sha256_bytes(TAG_EMPTY.as_slice()),
            HashTree::Leaf(value) => {
                let mut input: Vec<u8> = Vec::new();
                append_bytes(&mut input, TAG_LEAF.as_slice());
                append_bytes(&mut input, value.as_slice());
                sha256_bytes(input.as_slice())
            },
            HashTree::Pruned(digest) => *digest,
            HashTree::Labeled(label, sub) => {
                let below = sub.digest();
                let mut input: Vec<u8> = Vec::new();
                append_bytes(&mut input, TAG_LABELED.as_slice());
                append_bytes(&mut input, label.as_slice());
                append_bytes(&mut input, below.as_slice());
                sha256_bytes(input.as_slice())
            },
            HashTree::Fork(left, right) => {
                let l = left.digest();
                let r = right.digest();
                let mut input: Vec<u8> = Vec::new();
                append_bytes(&mut input, TAG_FORK.as_slice());
                append_bytes(&mut input, l.as_slice());
                append_bytes(&mut input, r.as_slice());
                sha256_bytes(input.as_slice())
            },
        }
    }
}

/// The hash function maps two different byte strings to the same digest.
pub open spec fn hash_collides() -> bool {
    exists|a: Seq<u8>, b: Seq<u8>| a != b && sha256(a) == sha256(b)
}

/// Equal digests come from equal inputs, or the hash function collides.
proof fn lemma_equal_hash(a: Seq<u8>, b: Seq<u8>)
    requires
        sha256(a)@ == sha256(b)@,
    ensures
        a == b || hash_collides(),
{
    assert(sha256(a) == sha256(b)) by {
        assert(sha256(a)@ =~= sha256(b)@);
    }
}

/// Two trees agree when they are the same wherever neither is hidden, and
/// where one is hidden it carries the digest of what the other shows.
pub open spec fn agree(t1: Tree, t2: Tree) -> bool
    decreases t1,
{
    match (t1, t2) {
        (Tree::Pruned(d), _) => d == tree_digest(t2),
        (_, Tree::Pruned(d)) => d == tree_digest(t1),
        (Tree::Empty, Tree::Empty) => true,
        (Tree::Leaf(v1), Tree::Leaf(v2)) => v1 == v2,
        (Tree::Labeled(l1, s1), Tree::Labeled(l2, s2)) => l1 == l2 && agree(*s1, *s2),
        (Tree::Fork(x1, y1), Tree::Fork(x2, y2)) => agree(*x1, *x2) && agree(*y1, *y2),
        _ => false,
    }
}

/// Two well-formed trees with the same digest agree, unless the hash function
/// collides: each kind of node hashes under a tag of its own, and the digests
/// inside a hash input have a fixed length, so equal inputs come apart into
/// equal parts. Changing a byte of a label, of a value or of a hidden digest
/// therefore changes the digest of the whole tree.
pub proof fn law_equal_digests_agree(t1: Tree, t2: Tree)
    requires
        t1.well_formed(),
        t2.well_formed(),
        tree_digest(t1) == tree_digest(t2),
    ensures
        agree(t1, t2) || hash_collides(),
    decreases t1,
{
    match t1 {
        Tree::Empty => {
            let a = empty_input();
            match t2 {
                Tree::Empty => {},
                Tree::Leaf(v) => {
                    lemma_equal_hash(a, leaf_input(v));
                    assert(a[0] != leaf_input(v)[0]);
                },
                Tree::Labeled(l, s) => {
                    lemma_equal_hash(a, labeled_input(l, tree_digest(*s)));
                    assert(a[0] != labeled_input(l, tree_digest(*s))[0]);
                },
                Tree::Fork(x, y) => {
                    lemma_equal_hash(a, fork_input(tree_digest(*x), tree_digest(*y)));
                    assert(a[0] != fork_input(tree_digest(*x), tree_digest(*y))[0]);
                },
                Tree::Pruned(_) => {},
            }
        },
        Tree::Leaf(v1) => {
            let a = leaf_input(v1);
            match t2 {
                Tree::Empty => {
                    lemma_equal_hash(a, empty_input());
                    assert(a[0] != empty_input()[0]);
                },
                Tree::Leaf(v2) => {
                    let b = leaf_input(v2);
                    lemma_equal_hash(a, b);
                    if a == b {
                        assert(v1 =~= a.subrange(17, a.len() as int));
                        assert(v2 =~= b.subrange(17, b.len() as int));
                    }
                },
                Tree::Labeled(l, s) => {
                    lemma_equal_hash(a, labeled_input(l, tree_digest(*s)));
                    assert(a[0] != labeled_input(l, tree_digest(*s))[0]);
                },
                Tree::Fork(x, y) => {
                    let b = fork_input(tree_digest(*x), tree_digest(*y));
                    lemma_equal_hash(a, b);
                    lemma_digest_len(*x);
                    assert(a[13] != b[13]);
                },
                Tree::Pruned(_) => {},
            }
        },
        Tree::Labeled(l1, s1) => {
            let d1 = tree_digest(*s1);
            let a = labeled_input(l1, d1);
            match t2 {
                Tree::Empty => {
                    lemma_equal_hash(a, empty_input());
                    assert(a[0] != empty_input()[0]);
                },
                Tree::Leaf(v) => {
                    lemma_equal_hash(a, leaf_input(v));
                    assert(a[0] != leaf_input(v)[0]);
                },
                Tree::Labeled(l2, s2) => {
                    let d2 = tree_digest(*s2);
                    let b = labeled_input(l2, d2);
                    lemma_equal_hash(a, b);
                    if a == b {
                        lemma_digest_len(*s1);
                        lemma_digest_len(*s2);
                        let n = a.len() as int;
                        assert(l1 =~= a.subrange(20, n - 32));
                        assert(l2 =~= b.subrange(20, n - 32));
                        assert(d1 =~= a.subrange(n - 32, n));
                        assert(d2 =~= b.subrange(n - 32, n));
                        law_equal_digests_agree(*s1, *s2);
                    }
                },
                Tree::Fork(x, y) => {
                    lemma_equal_hash(a, fork_input(tree_digest(*x), tree_digest(*y)));
                    assert(a[0] != fork_input(tree_digest(*x), tree_digest(*y))[0]);
                },
                Tree::Pruned(_) => {},
            }
        },
        Tree::Fork(x1, y1) => {
            let dx1 = tree_digest(*x1);
            let dy1 = tree_digest(*y1);
            let a = fork_input(dx1, dy1);
            lemma_digest_len(*x1);
            lemma_digest_len(*y1);
            match t2 {
                Tree::Empty => {
                    lemma_equal_hash(a, empty_input());
                    assert(a[0] != empty_input()[0]);
                },
                Tree::Leaf(v) => {
                    lemma_equal_hash(a, leaf_input(v));
                    assert(a[13] != leaf_input(v)[13]);
                },
                Tree::Labeled(l, s) => {
                    lemma_equal_hash(a, labeled_input(l, tree_digest(*s)));
                    assert(a[0] != labeled_input(l, tree_digest(*s))[0]);
                },
                Tree::Fork(x2, y2) => {
                    let dx2 = tree_digest(*x2);
                    let dy2 = tree_digest(*y2);
                    let b = fork_input(dx2, dy2);
                    lemma_equal_hash(a, b);
                    if a == b {
                        lemma_digest_len(*x2);
                        lemma_digest_len(*y2);
                        assert(dx1 =~= a.subrange(17, 49));
                        assert(dx2 =~= b.subrange(17, 49));
                        assert(dy1 =~= a.subrange(49, 81));
                        assert(dy2 =~= b.subrange(49, 81));
                        law_equal_digests_agree(*x1, *x2);
                        law_equal_digests_agree(*y1, *y2);
                    }
                },
                Tree::Pruned(_) => {},
            }
        },
        Tree::Pruned(_) => {},
    }
}

/// Complete trees that agree are equal.
proof fn lemma_complete_agree_equal(t1: Tree, t2: Tree)
    requires
        t1.complete(),
        t2.complete(),
        agree(t1, t2),
    ensures
        t1 == t2,
    decreases t1,
{
    match (t1, t2) {
        (Tree::Labeled(_, s1), Tree::Labeled(_, s2)) => {
            lemma_complete_agree_equal(*s1, *s2);
        },
        (Tree::Fork(x1, y1), Tree::Fork(x2, y2)) => {
            lemma_complete_agree_equal(*x1, *x2);
            lemma_complete_agree_equal(*y1, *y2);
        },
        _ => {},
    }
}

/// Two complete trees with the same digest are the same tree, unless the hash
/// function collides.
pub proof fn law_digest_separates_trees(t1: Tree, t2: Tree)
    requires
        t1.complete(),
        t2.complete(),
        tree_digest(t1) == tree_digest(t2),
    ensures
        t1 == t2 || hash_collides(),
{
    t1.lemma_complete_well_formed();
    t2.lemma_complete_well_formed();
    law_equal_digests_agree(t1, t2);
    if agree(t1, t2) {
        lemma_complete_agree_equal(t1, t2);
    }
}

/// Trees that agree have the same digest: hiding a subtree behind its digest
/// changes nothing of the digest above it.
pub proof fn law_agreeing_trees_share_digest(t1: Tree, t2: Tree)
    requires
        agree(t1, t2),
    ensures
        tree_digest(t1) == tree_digest(t2),
    decreases t1,
{
    match (t1, t2) {
        (Tree::Labeled(_, s1), Tree::Labeled(_, s2)) => {
            law_agreeing_trees_share_digest(*s1, *s2);
        },
        (Tree::Fork(x1, y1), Tree::Fork(x2, y2)) => {
            law_agreeing_trees_share_digest(*x1, *x2);
            law_agreeing_trees_share_digest(*y1, *y2);
        },
        _ => {},
    }
}

} // verus!
