//! Path lookup in a hash tree.
//!
//! A lookup tells three outcomes apart that must never be confused: the value
//! is there, the tree proves that it is not there, or a pruned branch hides
//! the answer.

use vstd::prelude::*;
use crate::outside::{from_outside, outside_root, outside_tree, to_outside, OutsideTree};
use crate::tree::{HashTree, Tree};

verus! {

/// The label `time`.
pub const TIME_LABEL: [u8; 4] = [0x74, 0x69, 0x6d, 0x65];

/// The label `request_status`.
pub const REQUEST_STATUS_LABEL: [u8; 14] = [
    0x72, 0x65, 0x71, 0x75, 0x65, 0x73, 0x74, 0x5f, 0x73, 0x74, 0x61, 0x74, 0x75, 0x73,
];

/// The label `status`.
pub const STATUS_LABEL: [u8; 6] = [0x73, 0x74, 0x61, 0x74, 0x75, 0x73];

/// The label `reply`.
pub const REPLY_LABEL: [u8; 5] = [0x72, 0x65, 0x70, 0x6c, 0x79];

/// A part of the tree that verification and extraction read.
#[derive(Debug, Clone, Copy, PartialEq, Eq, Structural)]
pub enum Field {
    /// The leaf `time`.
    Time,
    /// The subtree `request_status`.
    RequestStatus,
    /// The leaf `status` below the request's identifier.
    Status,
    /// The leaf `reply` below the request's identifier.
    Reply,
}

/// Model of the outcome of looking up a value.
pub enum Lookup {
    /// The value at the end of the path.
    Found(Seq<u8>),
    /// The tree proves that nothing is at the path.
    Absent,
    /// A pruned branch hides whether anything is at the path.
    Unknown,
    /// The path ends inside the tree, at a node that holds no value.
    Error,
}

/// Model of the outcome of looking up a subtree.
pub enum SubtreeLookup {
    /// The subtree at the end of the path.
    Found(Tree),
    /// The tree proves that nothing is at the path.
    Absent,
    /// A pruned branch hides whether anything is at the path.
    Unknown,
}

/// Outcome of looking up a value.
#[derive(Debug, PartialEq, Eq)]
pub enum LookupResult {
    /// The value at the end of the path.
    Found(Vec<u8>),
    /// The tree proves that nothing is at the path.
    Absent,
    /// A pruned branch hides whether anything is at the path.
    Unknown,
    /// The path ends inside the tree, at a node that holds no value.
    Error,
}

impl View for LookupResult {
    type V = Lookup;

    open spec fn view(&self) -> Lookup {
        match self {
            LookupResult::Found(value) => Lookup::Found(value@),
            LookupResult::Absent => Lookup::Absent,
            LookupResult::Unknown => Lookup::Unknown,
            LookupResult::Error => Lookup::Error,
        }
    }
}

/// Outcome of looking up a subtree.
#[derive(Debug, PartialEq, Eq)]
pub enum SubtreeLookupResult {
    /// The subtree at the end of the path.
    Found(HashTree),
    /// The tree proves that nothing is at the path.
    Absent,
    /// A pruned branch hides whether anything is at the path.
    Unknown,
}

impl View for SubtreeLookupResult {
    type V = SubtreeLookup;

    open spec fn view(&self) -> SubtreeLookup {
        match self {
            SubtreeLookupResult::Found(tree) => SubtreeLookup::Found(tree@),
            SubtreeLookupResult::Absent => SubtreeLookup::Absent,
            SubtreeLookupResult::Unknown => SubtreeLookup::Unknown,
        }
    }
}

/// `a` sorts before `b`: byte by byte from the front, and a string before
/// every longer string that begins with it.
pub open spec fn sorts_before(a: Seq<u8>, b: Seq<u8>) -> bool
    decreases a.len(),
{
    if b.len() == 0 {
        false
    } else if a.len() == 0 {
        true
    } else if a[0] != b[0] {
        a[0] < b[0]
    } else {
        sorts_before(a.drop_first(), b.drop_first())
    }
}

/// What the search for one label among the nodes of one level gives.
pub enum LabelSearch {
    /// What stands below the label.
    Found(Tree),
    /// The level shows that the label is not there.
    Absent,
    /// A pruned node hides whether the label is there.
    Unknown,
    /// The label sorts before what was seen; it may still stand further left.
    Less,
    /// The label sorts after what was seen; it may still stand further right.
    Greater,
}

/// Searches the level at the top of `t` for `label`. A labeled node answers
/// by its own label. A fork asks its left side first, and its right side
/// where the label sorts after the left side or the left side is hidden: a
/// right side that begins after the label then proves absence behind a left
/// side that was seen, and proves nothing behind one that was hidden. A
/// pruned node hides the answer; an empty node and a leaf hold no label.
pub open spec fn label_search(t: Tree, label: Seq<u8>) -> LabelSearch
    decreases t,
{
    match t {
        Tree::Labeled(l, sub) => if label == l {
            LabelSearch::Found(*sub)
        } else if sorts_before(label, l) {
            LabelSearch::Less
        } else {
            LabelSearch::Greater
        },
        Tree::Fork(left, right) => match label_search(*left, label) {
            LabelSearch::Greater => match label_search(*right, label) {
                LabelSearch::Less => LabelSearch::Absent,
                other => other,
            },
            LabelSearch::Unknown => match label_search(*right, label) {
                LabelSearch::Less => LabelSearch::Unknown,
                other => other,
            },
            other => other,
        },
        Tree::Pruned(_) => LabelSearch::Unknown,
        _ => LabelSearch::Absent,
    }
}

/// The value at `path` in `t`. Each label of the path is searched on the
/// level reached; where the path is used up, a leaf gives its value, an empty
/// node proves absence, a pruned node hides the answer, and any other node
/// holds no value.
pub open spec fn path_lookup(t: Tree, path: Seq<Seq<u8>>) -> Lookup
    decreases path.len(),
{
    if path.len() == 0 {
        match t {
            Tree::Leaf(value) => Lookup::Found(value),
            Tree::Empty => Lookup::Absent,
            Tree::Pruned(_) => Lookup::Unknown,
            _ => Lookup::Error,
        }
    } else {
        match label_search(t, path[0]) {
            LabelSearch::Found(sub) => path_lookup(sub, path.drop_first()),
            LabelSearch::Unknown => Lookup::Unknown,
            _ => Lookup::Absent,
        }
    }
}

/// The subtree at `path` in `t`: the tree that is reached where the path is
/// used up.
pub open spec fn subtree_lookup(t: Tree, path: Seq<Seq<u8>>) -> SubtreeLookup
    decreases path.len(),
{
    if path.len() == 0 {
        SubtreeLookup::Found(t)
    } else {
        match label_search(t, path[0]) {
            LabelSearch::Found(sub) => subtree_lookup(sub, path.drop_first()),
            LabelSearch::Unknown => SubtreeLookup::Unknown,
            _ => SubtreeLookup::Absent,
        }
    }
}

/// The label paths that lead to the leaves of `t`, each behind `prefix`, from
/// left to right. Nothing below a pruned node is listed.
pub open spec fn tree_paths(t: Tree, prefix: Seq<Seq<u8>>) -> Seq<Seq<Seq<u8>>>
    decreases t,
{
    match t {
        Tree::Empty => Seq::empty(),
        Tree::Fork(left, right) => tree_paths(*left, prefix) + tree_paths(*right, prefix),
        Tree::Labeled(label, sub) => tree_paths(*sub, prefix.push(label)),
        Tree::Leaf(_) => seq![prefix],
        Tree::Pruned(_) => Seq::empty(),
    }
}

/// Outcome of looking up a subtree, the subtree still in the form of
/// `ic_certification`.
pub enum OutsideSubtree {
    /// The subtree at the end of the path.
    Found(OutsideTree),
    /// The tree proves that nothing is at the path.
    Absent,
    /// A pruned branch hides whether anything is at the path.
    Unknown,
}

impl OutsideSubtree {
    /// The outcome over the model of trees.
    pub open spec fn model(self) -> SubtreeLookup {
        match self {
            OutsideSubtree::Found(tree) => SubtreeLookup::Found(outside_tree(tree)),
            OutsideSubtree::Absent => SubtreeLookup::Absent,
            OutsideSubtree::Unknown => SubtreeLookup::Unknown,
        }
    }
}

/// Calls `HashTree::lookup_path` of `ic_certification` and copies the bytes
/// that it found. The contract states the answer as the crate's source gives
/// it: `path_lookup` follows its search label by label, with the order of
/// byte slices for the order of labels.
#[verifier::external_body]
pub(crate) fn outside_lookup_path(tree: &OutsideTree, path: &Vec<Vec<u8>>) -> (out: LookupResult)
    ensures
        out@ == path_lookup(outside_tree(*tree), path.deep_view()),
{
    match tree.inner.lookup_path(path) {
        ic_certification::LookupResult::Found(value) => LookupResult::Found(value.to_vec()),
        ic_certification::LookupResult::Absent => LookupResult::Absent,
        ic_certification::LookupResult::Unknown => LookupResult::Unknown,
        ic_certification::LookupResult::Error => LookupResult::Error,
    }
}

/// Calls `HashTree::lookup_subtree` of `ic_certification`. The contract
/// states the answer as the crate's source gives it: the same search as for a
/// value, ended by the tree that is reached.
#[verifier::external_body]
pub(crate) fn outside_lookup_subtree(tree: &OutsideTree, path: &Vec<Vec<u8>>) -> (out:
    OutsideSubtree)
    ensures
        out.model() == subtree_lookup(outside_tree(*tree), path.deep_view()),
{
    match tree.inner.lookup_subtree(path) {
        ic_certification::SubtreeLookupResult::Found(sub) => OutsideSubtree::Found(
            OutsideTree { inner: sub },
        ),
        ic_certification::SubtreeLookupResult::Absent => OutsideSubtree::Absent,
        ic_certification::SubtreeLookupResult::Unknown => OutsideSubtree::Unknown,
    }
}

/// Calls `HashTree::list_paths` of `ic_certification` and copies the bytes of
/// each label. The crate lists the paths to the leaves from left to right and
/// lists nothing for an empty or a pruned node.
#[verifier::external_body]
pub(crate) fn outside_list_paths(tree: &OutsideTree) -> (out: Vec<Vec<Vec<u8>>>)
    ensures
        out.deep_view() == tree_paths(outside_tree(*tree), Seq::empty()),
{
    tree.inner.list_paths().iter().map(
        |path| path.iter().map(|label| label.as_bytes().to_vec()).collect(),
    ).collect()
}

impl HashTree {
    /// Looks up the value at `path`.
    pub fn lookup_path(&self, path: &Vec<Vec<u8>>) -> (out: LookupResult)
        ensures
            out@ == path_lookup(self@, path.deep_view()),
    {
        let outside = to_outside(self);
        outside_lookup_path(&outside, path)
    }

    /// Looks up the subtree at `path`.
    pub fn lookup_subtree(&self, path: &Vec<Vec<u8>>) -> (out: SubtreeLookupResult)
        ensures
            out@ == subtree_lookup(self@, path.deep_view()),
    {
        let outside = to_outside(self);
        match outside_lookup_subtree(&outside, path) {
            OutsideSubtree::Found(sub) => SubtreeLookupResult::Found(
                from_outside(outside_root(sub)),
            ),
            OutsideSubtree::Absent => SubtreeLookupResult::Absent,
            OutsideSubtree::Unknown => SubtreeLookupResult::Unknown,
        }
    }

    /// Lists the label path of every leaf that can be reached without
    /// crossing a pruned node, from left to right.
    pub fn list_paths(&self) -> (out: Vec<Vec<Vec<u8>>>)
        ensures
            out.deep_view() == tree_paths(self@, Seq::empty()),
    {
        let outside = to_outside(self);
        outside_list_paths(&outside)
    }
}

/// No label sorts before itself, and of two labels at most one sorts before
/// the other.
pub proof fn lemma_sorts_before_one_way(a: Seq<u8>, b: Seq<u8>)
    requires
        sorts_before(a, b),
    ensures
        a != b,
        !sorts_before(b, a),
    decreases a.len(),
{
    if a.len() > 0 && b.len() > 0 && a[0] == b[0] {
        lemma_sorts_before_one_way(a.drop_first(), b.drop_first());
    }
}

/// The order of labels is transitive.
pub proof fn lemma_sorts_before_transitive(a: Seq<u8>, b: Seq<u8>, c: Seq<u8>)
    requires
        sorts_before(a, b),
        sorts_before(b, c),
    ensures
        sorts_before(a, c),
    decreases a.len(),
{
    if a.len() > 0 && a[0] == b[0] && b[0] == c[0] {
        lemma_sorts_before_transitive(a.drop_first(), b.drop_first(), c.drop_first());
    }
}

/// In a fork of two labeled leaves in order, the value under the first label
/// is found, and a label that sorts after both is proved absent; with the
/// second leaf pruned away, the same label is unknown, not absent.
pub proof fn law_lookup_in_a_fork_of_two(
    a: Seq<u8>,
    x: Seq<u8>,
    b: Seq<u8>,
    y: Seq<u8>,
    c: Seq<u8>,
    d: Seq<u8>,
)
    requires
        sorts_before(a, b),
        sorts_before(b, c),
    ensures
        path_lookup(
            Tree::Fork(
                Box::new(Tree::Labeled(a, Box::new(Tree::Leaf(x)))),
                Box::new(Tree::Labeled(b, Box::new(Tree::Leaf(y)))),
            ),
            seq![a],
        ) == Lookup::Found(x),
        path_lookup(
            Tree::Fork(
                Box::new(Tree::Labeled(a, Box::new(Tree::Leaf(x)))),
                Box::new(Tree::Labeled(b, Box::new(Tree::Leaf(y)))),
            ),
            seq![c],
        ) == Lookup::Absent,
        path_lookup(
            Tree::Fork(
                Box::new(Tree::Labeled(a, Box::new(Tree::Leaf(x)))),
                Box::new(Tree::Pruned(d)),
            ),
            seq![c],
        ) == Lookup::Unknown,
{
    let left = Tree::Labeled(a, Box::new(Tree::Leaf(x)));
    let right = Tree::Labeled(b, Box::new(Tree::Leaf(y)));
    lemma_sorts_before_transitive(a, b, c);
    lemma_sorts_before_one_way(a, c);
    lemma_sorts_before_one_way(b, c);
    assert(label_search(left, a) == LabelSearch::Found(Tree::Leaf(x)));
    assert(label_search(left, c) == LabelSearch::Greater);
    assert(label_search(right, c) == LabelSearch::Greater);
    assert(label_search(Tree::Pruned(d), c) == LabelSearch::Unknown);
    assert(seq![a].drop_first() =~= Seq::<Seq<u8>>::empty());
    assert(path_lookup(Tree::Leaf(x), seq![a].drop_first()) == Lookup::Found(x));
}

/// A pruned node is never taken for proof: whatever is looked up in it is
/// unknown.
pub proof fn law_pruned_answers_unknown(d: Seq<u8>, path: Seq<Seq<u8>>)
    ensures
        path_lookup(Tree::Pruned(d), path) == Lookup::Unknown,
        path.len() > 0 ==> subtree_lookup(Tree::Pruned(d), path) == SubtreeLookup::Unknown,
{
}

/// A value is looked up below a subtree as it is looked up in the subtree
/// that was found there.
pub proof fn law_lookup_goes_through_subtree(t: Tree, prefix: Seq<Seq<u8>>, rest: Seq<Seq<u8>>)
    ensures
        subtree_lookup(t, prefix) matches SubtreeLookup::Found(sub) ==> path_lookup(
            t,
            prefix + rest,
        ) == path_lookup(sub, rest),
    decreases prefix.len(),
{
    if prefix.len() == 0 {
        assert(prefix + rest =~= rest);
    } else {
        let path = prefix + rest;
        assert(path[0] == prefix[0]);
        assert(path.drop_first() =~= prefix.drop_first() + rest);
        match label_search(t, prefix[0]) {
            LabelSearch::Found(sub) => {
                law_lookup_goes_through_subtree(sub, prefix.drop_first(), rest);
            },
            _ => {},
        }
    }
}

} // verus!
