//! Extraction of a request's status and reply from a verified tree.

use vstd::prelude::*;
use crate::bytes::{bytes_eq, copy_bytes};
use crate::lookup::{
    label_search, outside_list_paths, outside_lookup_path, outside_lookup_subtree, path_lookup,
    sorts_before, subtree_lookup, tree_paths, Field, LabelSearch, Lookup, LookupResult,
    OutsideSubtree, SubtreeLookup, REPLY_LABEL, REQUEST_STATUS_LABEL, STATUS_LABEL, TIME_LABEL,
};
use crate::outside::to_outside;
use crate::tree::{HashTree, Tree};

verus! {

/// `id` is the one label with which the paths begin: some path begins with
/// it, and none begins with another. A path without labels begins with none.
pub open spec fn is_sole_first_label(paths: Seq<Seq<Seq<u8>>>, id: Seq<u8>) -> bool {
    &&& exists|i: int| 0 <= i < paths.len() && paths[i].len() > 0 && #[trigger] paths[i][0] == id
    &&& forall|j: int| 0 <= j < paths.len() && paths[j].len() > 0 ==> #[trigger] paths[j][0] == id
}

/// Finds the one label with which all the paths begin. There is none where
/// no path has a label, and none where two paths begin differently.
pub fn sole_first_label(paths: &Vec<Vec<Vec<u8>>>) -> (out: Option<Vec<u8>>)
    ensures
        match out {
            Some(id) => is_sole_first_label(paths.deep_view(), id@),
            None => forall|id: Seq<u8>| !is_sole_first_label(paths.deep_view(), id),
        },
{
    let ghost model = paths.deep_view();
    let mut found: Option<usize> = None;
    let mut i: usize = 0;
    while i < paths.len()
        invariant
            i <= paths.len(),
            model == paths.deep_view(),
            match found {
                Some(k) => k < i && model[k as int].len() > 0 && (forall|j: int|
                    0 <= j < i && model[j].len() > 0 ==> #[trigger] model[j][0] == model[k as int][0]),
                None => forall|j: int| 0 <= j < i ==> (#[trigger] model[j]).len() == 0,
            },
        decreases paths.len() - i,
    {
        let path = &paths[i];
        assert(model[i as int] == path.deep_view());
        if path.len() > 0 {
            assert(model[i as int][0] == path[0]@);
            match found {
                None => {
                    found = Some(i);
                },
                Some(k) => {
                    let first = &paths[k];
                    assert(model[k as int] == first.deep_view());
                    assert(model[k as int][0] == first[0]@);
                    if !bytes_eq(first[0].as_slice(), path[0].as_slice()) {
                        assert forall|id: Seq<u8>| !is_sole_first_label(model, id) by {
                            if is_sole_first_label(model, id) {
                                assert(model[k as int][0] == id);
                                assert(model[i as int][0] == id);
                            }
                        }
                        return None;
                    }
                },
            }
        }
        i += 1;
    }
    match found {
        Some(k) => {
            let id = copy_bytes(paths[k][0].as_slice());
            assert(model[k as int] == paths[k as int].deep_view());
            assert(model[k as int][0] == id@);
            Some(id)
        },
        None => {
            assert forall|id: Seq<u8>| !is_sole_first_label(model, id) by {
                if is_sole_first_label(model, id) {
                    let w = choose|w: int| 0 <= w < model.len() && model[w].len() > 0 && #[trigger] model[w][0] == id;
                    assert(model[w].len() == 0);
                }
            }
            None
        },
    }
}

/// Model of the ways in which extraction fails.
pub enum ExtractFailure {
    /// The tree proves that the field is not there.
    MissingField(Field),
    /// A pruned branch hides the field.
    LookupUnknown(Field),
    /// The path to the field ends at a node that holds no value.
    TreeMalformed(Field),
    /// Not exactly one request identifier stands below `request_status`.
    AmbiguousRequestId,
    /// The reply was asked for, and the status is not `replied`.
    UnexpectedStatus(Seq<char>),
}

/// The ways in which extraction fails.
#[derive(Debug, PartialEq, Eq)]
pub enum ExtractError {
    /// The tree proves that the field is not there.
    MissingField(Field),
    /// A pruned branch hides the field.
    LookupUnknown(Field),
    /// The path to the field ends at a node that holds no value.
    TreeMalformed(Field),
    /// Not exactly one request identifier stands below `request_status`.
    AmbiguousRequestId,
    /// The reply was asked for, and the status, given here, is not `replied`.
    UnexpectedStatus(String),
}

impl View for ExtractError {
    type V = ExtractFailure;

    open spec fn view(&self) -> ExtractFailure {
        match self {
            ExtractError::MissingField(field) => ExtractFailure::MissingField(*field),
            ExtractError::LookupUnknown(field) => ExtractFailure::LookupUnknown(*field),
            ExtractError::TreeMalformed(field) => ExtractFailure::TreeMalformed(*field),
            ExtractError::AmbiguousRequestId => ExtractFailure::AmbiguousRequestId,
            ExtractError::UnexpectedStatus(status) => ExtractFailure::UnexpectedStatus(status@),
        }
    }
}

/// Model of a request's status.
pub struct RequestStatusModel {
    /// The value of the leaf `time`.
    pub time: Seq<u8>,
    /// The request's identifier.
    pub id: Seq<u8>,
    /// The status, as text.
    pub status: Seq<char>,
    /// The reply; empty where the tree holds none.
    pub reply: Seq<u8>,
}

/// A request's status, as a verified tree shows it.
#[derive(Debug, PartialEq, Eq)]
pub struct RequestStatus {
    /// The value of the leaf `time`.
    pub time: Vec<u8>,
    /// The request's identifier.
    pub id: Vec<u8>,
    /// The status, as text.
    pub status: String,
    /// The reply; empty where the tree holds none.
    pub reply: Vec<u8>,
}

impl View for RequestStatus {
    type V = RequestStatusModel;

    open spec fn view(&self) -> RequestStatusModel {
        RequestStatusModel {
            time: self.time@,
            id: self.id@,
            status: self.status@,
            reply: self.reply@,
        }
    }
}

/// The model of an extraction's outcome.
pub open spec fn outcome_model(r: Result<RequestStatus, ExtractError>) -> Result<
    RequestStatusModel,
    ExtractFailure,
> {
    match r {
        Ok(status) => Ok(status@),
        Err(error) => Err(error@),
    }
}

/// The text that `String::from_utf8_lossy` makes of a byte string.
pub uninterp spec fn lossy_text(bytes: Seq<u8>) -> Seq<char>;

/// The text that bytes are read as: the text that they encode, where they
/// are valid UTF-8, and else the text that `String::from_utf8_lossy` makes
/// of them.
pub open spec fn text_read(bytes: Seq<u8>) -> Seq<char> {
    if vstd::utf8::valid_utf8(bytes) {
        vstd::utf8::decode_utf8(bytes)
    } else {
        lossy_text(bytes)
    }
}

/// Calls `String::from_utf8_lossy`, which hands out valid UTF-8 as the text
/// that it encodes and puts the replacement character where bytes are not
/// valid. The contract names the text and states it for valid UTF-8.
#[verifier::external_body]
fn text_of(bytes: &[u8]) -> (out: String)
    ensures
        out@ == lossy_text(bytes@),
        vstd::utf8::valid_utf8(bytes@) ==> out@ == vstd::utf8::decode_utf8(bytes@),
{
    String::from_utf8_lossy(bytes).into_owned()
}

/// The bytes of the status `replied`.
pub const REPLIED: [u8; 7] = [0x72, 0x65, 0x70, 0x6c, 0x69, 0x65, 0x64];

/// The bytes that encode a text are read as that text.
pub proof fn law_encoded_text_is_read_back(text: Seq<char>)
    ensures
        text_read(vstd::utf8::encode_utf8(text)) == text,
{
    vstd::utf8::encode_utf8_valid_utf8(text);
    vstd::utf8::encode_utf8_decode_utf8(text);
}

/// The bytes of `replied` are read as the status `replied`.
pub proof fn law_replied_bytes_are_read_as_replied()
    ensures
        text_read(REPLIED@) == "replied"@,
{
    let text = "replied"@;
    reveal_strlit("replied");
    assert(vstd::utf8::is_ascii_chars(text));
    vstd::utf8::is_ascii_chars_encode_utf8(text);
    assert(vstd::utf8::encode_utf8(text) =~= REPLIED@);
    law_encoded_text_is_read_back(text);
}

/// What a lookup that must find a value gives: the value, or the failure
/// that the lookup stands for.
pub open spec fn required(field: Field, found: Lookup) -> Result<Seq<u8>, ExtractFailure> {
    match found {
        Lookup::Found(value) => Ok(value),
        Lookup::Absent => Err(ExtractFailure::MissingField(field)),
        Lookup::Unknown => Err(ExtractFailure::LookupUnknown(field)),
        Lookup::Error => Err(ExtractFailure::TreeMalformed(field)),
    }
}

/// The model of a value or of the failure to find it.
pub open spec fn value_model(r: Result<Vec<u8>, ExtractError>) -> Result<Seq<u8>, ExtractFailure> {
    match r {
        Ok(value) => Ok(value@),
        Err(error) => Err(error@),
    }
}

/// Takes the value out of a lookup that must find one: a value that is
/// proved absent is missing, one that a pruned branch hides is unknown, and a
/// path that ends at a node without a value shows a malformed tree.
pub fn require_found(field: Field, found: LookupResult) -> (out: Result<Vec<u8>, ExtractError>)
    ensures
        value_model(out) == required(field, found@),
{
    match found {
        LookupResult::Found(value) => Ok(value),
        LookupResult::Absent => Err(ExtractError::MissingField(field)),
        LookupResult::Unknown => Err(ExtractError::LookupUnknown(field)),
        LookupResult::Error => Err(ExtractError::TreeMalformed(field)),
    }
}

/// The status that the time, the identifier and the status text make up with
/// what the lookup of the reply gave. A reply that a pruned branch hides, or
/// whose path ends at a node without a value, is a failure; a reply that is
/// proved absent is a failure where the status is `replied`, and an empty
/// reply otherwise.
pub open spec fn with_reply(time: Seq<u8>, id: Seq<u8>, status: Seq<char>, reply: Lookup) -> Result<
    RequestStatusModel,
    ExtractFailure,
> {
    match reply {
        Lookup::Found(payload) => Ok(RequestStatusModel { time, id, status, reply: payload }),
        Lookup::Absent => if status == "replied"@ {
            Err(ExtractFailure::MissingField(Field::Reply))
        } else {
            Ok(RequestStatusModel { time, id, status, reply: Seq::empty() })
        },
        Lookup::Unknown => Err(ExtractFailure::LookupUnknown(Field::Reply)),
        Lookup::Error => Err(ExtractFailure::TreeMalformed(Field::Reply)),
    }
}

/// The status that the four parts make up. The status must have been found;
/// its text is the one that its bytes are read as.
pub open spec fn assembled(time: Seq<u8>, id: Seq<u8>, status: Lookup, reply: Lookup) -> Result<
    RequestStatusModel,
    ExtractFailure,
> {
    match required(Field::Status, status) {
        Ok(bytes) => with_reply(time, id, text_read(bytes), reply),
        Err(e) => Err(e),
    }
}

impl RequestStatus {
    /// Puts a status together from the time, the identifier and the status
    /// text that were found and from what the lookup of the reply gave.
    pub fn from_text(time: Vec<u8>, id: Vec<u8>, status: String, reply: LookupResult) -> (out:
        Result<RequestStatus, ExtractError>)
        ensures
            outcome_model(out) == with_reply(time@, id@, status@, reply@),
    {
        match reply {
            LookupResult::Found(payload) => Ok(RequestStatus { time, id, status, reply: payload }),
            LookupResult::Absent => {
                if reads_as(&status, "replied") {
                    Err(ExtractError::MissingField(Field::Reply))
                } else {
                    Ok(RequestStatus { time, id, status, reply: Vec::new() })
                }
            },
            LookupResult::Unknown => Err(ExtractError::LookupUnknown(Field::Reply)),
            LookupResult::Error => Err(ExtractError::TreeMalformed(Field::Reply)),
        }
    }

    /// Puts a status together from the time and the identifier that were
    /// found and from what the lookups of the status and of the reply gave.
    pub fn from_lookups(time: Vec<u8>, id: Vec<u8>, status: LookupResult, reply: LookupResult) -> (out:
        Result<RequestStatus, ExtractError>)
        ensures
            outcome_model(out) == assembled(time@, id@, status@, reply@),
    {
        match require_found(Field::Status, status) {
            Ok(bytes) => {
                let text = text_of(bytes.as_slice());
                RequestStatus::from_text(time, id, text, reply)
            },
            Err(e) => Err(e),
        }
    }

    /// Tells whether the status is `replied`.
    pub fn is_replied(&self) -> (out: bool)
        ensures
            out == (self.status@ == "replied"@),
    {
        let replied = "replied".to_owned();
        self.status == replied
    }

    /// Hands out the reply, which only the status `replied` makes meaningful.
    /// With any other status the result names that status.
    pub fn reply_payload(self) -> (out: Result<Vec<u8>, ExtractError>)
        ensures
            self.status@ == "replied"@ ==> out == Ok::<Vec<u8>, ExtractError>(self.reply),
            self.status@ != "replied"@ ==> out == Err::<Vec<u8>, ExtractError>(
                ExtractError::UnexpectedStatus(self.status),
            ),
    {
        if self.is_replied() {
            Ok(self.reply)
        } else {
            Err(ExtractError::UnexpectedStatus(self.status))
        }
    }
}

/// The statuses that a request goes through.
#[derive(Debug, Clone, Copy, PartialEq, Eq, Structural)]
pub enum StatusKind {
    /// `received`
    Received,
    /// `processing`
    Processing,
    /// `replied`
    Replied,
    /// `rejected`
    Rejected,
    /// `done`
    Done,
    /// `unknown`
    Unknown,
}

/// The status that a text names, if it names one.
pub open spec fn kind_of_text(text: Seq<char>) -> Option<StatusKind> {
    if text == "received"@ {
        Some(StatusKind::Received)
    } else if text == "processing"@ {
        Some(StatusKind::Processing)
    } else if text == "replied"@ {
        Some(StatusKind::Replied)
    } else if text == "rejected"@ {
        Some(StatusKind::Rejected)
    } else if text == "done"@ {
        Some(StatusKind::Done)
    } else if text == "unknown"@ {
        Some(StatusKind::Unknown)
    } else {
        None
    }
}

/// Tells whether `text` reads as `word`.
fn reads_as(text: &String, word: &str) -> (out: bool)
    ensures
        out == (text@ == word@),
{
    let owned = word.to_owned();
    *text == owned
}

impl RequestStatus {
    /// The status that the text names; `None` for a text that names none.
    pub fn kind(&self) -> (out: Option<StatusKind>)
        ensures
            out == kind_of_text(self.status@),
    {
        if reads_as(&self.status, "received") {
            Some(StatusKind::Received)
        } else if reads_as(&self.status, "processing") {
            Some(StatusKind::Processing)
        } else if reads_as(&self.status, "replied") {
            Some(StatusKind::Replied)
        } else if reads_as(&self.status, "rejected") {
            Some(StatusKind::Rejected)
        } else if reads_as(&self.status, "done") {
            Some(StatusKind::Done)
        } else if reads_as(&self.status, "unknown") {
            Some(StatusKind::Unknown)
        } else {
            None
        }
    }
}

/// The one label with which the paths begin, if there is one.
pub open spec fn sole_id(paths: Seq<Seq<Seq<u8>>>) -> Option<Seq<u8>> {
    if exists|id: Seq<u8>| is_sole_first_label(paths, id) {
        Some(choose|id: Seq<u8>| is_sole_first_label(paths, id))
    } else {
        None
    }
}

/// At most one label is the one with which the paths begin.
pub proof fn lemma_sole_first_label_unique(paths: Seq<Seq<Seq<u8>>>, a: Seq<u8>, b: Seq<u8>)
    requires
        is_sole_first_label(paths, a),
        is_sole_first_label(paths, b),
    ensures
        a == b,
{
    let i = choose|i: int| 0 <= i < paths.len() && paths[i].len() > 0 && #[trigger] paths[i][0] == a;
    assert(paths[i][0] == b);
}

/// What is extracted from the subtree `sub` that stands at `request_status`,
/// the time having been found.
pub open spec fn extraction_below(time: Seq<u8>, sub: Tree) -> Result<
    RequestStatusModel,
    ExtractFailure,
> {
    match sole_id(tree_paths(sub, Seq::empty())) {
        Some(id) => assembled(
            time,
            id,
            path_lookup(sub, seq![id, STATUS_LABEL@]),
            path_lookup(sub, seq![id, REPLY_LABEL@]),
        ),
        None => Err(ExtractFailure::AmbiguousRequestId),
    }
}

/// What is extracted from the tree `t`. The steps fail in this order: the
/// time, the subtree `request_status`, the request identifier, the status,
/// the reply.
pub open spec fn extraction(t: Tree) -> Result<RequestStatusModel, ExtractFailure> {
    match required(Field::Time, path_lookup(t, seq![TIME_LABEL@])) {
        Ok(time) => match subtree_lookup(t, seq![REQUEST_STATUS_LABEL@]) {
            SubtreeLookup::Found(sub) => extraction_below(time, sub),
            SubtreeLookup::Absent => Err(ExtractFailure::MissingField(Field::RequestStatus)),
            SubtreeLookup::Unknown => Err(ExtractFailure::LookupUnknown(Field::RequestStatus)),
        },
        Err(e) => Err(e),
    }
}

/// The path of one label.
fn path_of_one(label: &[u8]) -> (out: Vec<Vec<u8>>)
    ensures
        out.deep_view() == seq![label@],
{
    let mut path: Vec<Vec<u8>> = Vec::new();
    path.push(copy_bytes(label));
    assert(path@[0].deep_view() =~= label@);
    assert(path.deep_view() =~= seq![label@]);
    path
}

/// The path of two labels.
fn path_of_two(first: &[u8], second: &[u8]) -> (out: Vec<Vec<u8>>)
    ensures
        out.deep_view() == seq![first@, second@],
{
    let mut path: Vec<Vec<u8>> = Vec::new();
    path.push(copy_bytes(first));
    path.push(copy_bytes(second));
    assert(path@[0].deep_view() =~= first@);
    assert(path@[1].deep_view() =~= second@);
    assert(path.deep_view() =~= seq![first@, second@]);
    path
}

impl RequestStatus {
    /// Reads a request's status out of a tree: the time, then the one request
    /// identifier below `request_status`, then that request's status and
    /// reply.
    pub fn try_from_tree(tree: &HashTree) -> (out: Result<RequestStatus, ExtractError>)
        ensures
            outcome_model(out) == extraction(tree@),
    {
        let outside = to_outside(tree);
        let time = match require_found(
            Field::Time,
            outside_lookup_path(&outside, &path_of_one(TIME_LABEL.as_slice())),
        ) {
            Ok(time) => time,
            Err(e) => {
                return Err(e);
            },
        };
        let sub = match outside_lookup_subtree(
            &outside,
            &path_of_one(REQUEST_STATUS_LABEL.as_slice()),
        ) {
            OutsideSubtree::Found(sub) => sub,
            OutsideSubtree::Absent => {
                return Err(ExtractError::MissingField(Field::RequestStatus));
            },
            OutsideSubtree::Unknown => {
                return Err(ExtractError::LookupUnknown(Field::RequestStatus));
            },
        };
        let paths = outside_list_paths(&sub);
        let id = match sole_first_label(&paths) {
            Some(id) => id,
            None => {
                return Err(ExtractError::AmbiguousRequestId);
            },
        };
        proof {
            let listed = paths.deep_view();
            lemma_sole_first_label_unique(listed, id@, sole_id(listed).unwrap());
        }
        let status = outside_lookup_path(&sub, &path_of_two(id.as_slice(), STATUS_LABEL.as_slice()));
        let reply = outside_lookup_path(&sub, &path_of_two(id.as_slice(), REPLY_LABEL.as_slice()));
        RequestStatus::from_lookups(time, id, status, reply)
    }
}

/// Nothing is extracted on the strength of a pruned branch: where the
/// extraction gives a status, the time, the subtree `request_status` and the
/// status were found, and the reply was found or is proved absent.
pub proof fn law_extraction_rests_on_what_is_shown(t: Tree)
    requires
        extraction(t) is Ok,
    ensures
        path_lookup(t, seq![TIME_LABEL@]) is Found,
        subtree_lookup(t, seq![REQUEST_STATUS_LABEL@]) matches SubtreeLookup::Found(sub)
            && sole_id(tree_paths(sub, Seq::empty())) matches Some(id) && path_lookup(
            sub,
            seq![id, STATUS_LABEL@],
        ) is Found && !(path_lookup(sub, seq![id, REPLY_LABEL@]) is Unknown) && !(path_lookup(
            sub,
            seq![id, REPLY_LABEL@],
        ) is Error),
{
}

/// The subtree of one request that was replied to with `reply`.
pub open spec fn replied_request(id: Seq<u8>, reply: Seq<u8>) -> Tree {
    Tree::Labeled(
        id,
        Box::new(
            Tree::Fork(
                Box::new(Tree::Labeled(REPLY_LABEL@, Box::new(Tree::Leaf(reply)))),
                Box::new(Tree::Labeled(STATUS_LABEL@, Box::new(Tree::Leaf(REPLIED@)))),
            ),
        ),
    )
}

/// The tree that holds `requests` below `request_status`, and the time.
pub open spec fn status_tree(time: Seq<u8>, requests: Tree) -> Tree {
    Tree::Fork(
        Box::new(Tree::Labeled(REQUEST_STATUS_LABEL@, Box::new(requests))),
        Box::new(Tree::Labeled(TIME_LABEL@, Box::new(Tree::Leaf(time)))),
    )
}

/// In a tree that holds requests and the time, the time and the subtree
/// `request_status` are found.
proof fn lemma_status_tree_lookups(time: Seq<u8>, requests: Tree)
    ensures
        path_lookup(status_tree(time, requests), seq![TIME_LABEL@]) == Lookup::Found(time),
        subtree_lookup(status_tree(time, requests), seq![REQUEST_STATUS_LABEL@])
            == SubtreeLookup::Found(requests),
{
    let t = status_tree(time, requests);
    let left = Tree::Labeled(REQUEST_STATUS_LABEL@, Box::new(requests));
    let right = Tree::Labeled(TIME_LABEL@, Box::new(Tree::Leaf(time)));
    let none = Seq::<Seq<u8>>::empty();
    assert(TIME_LABEL@ != REQUEST_STATUS_LABEL@) by {
        assert(TIME_LABEL@.len() != REQUEST_STATUS_LABEL@.len());
    }
    assert(!sorts_before(TIME_LABEL@, REQUEST_STATUS_LABEL@));
    assert(label_search(left, TIME_LABEL@) == LabelSearch::Greater);
    assert(label_search(right, TIME_LABEL@) == LabelSearch::Found(Tree::Leaf(time)));
    assert(label_search(t, TIME_LABEL@) == LabelSearch::Found(Tree::Leaf(time)));
    assert(seq![TIME_LABEL@].drop_first() =~= none);
    assert(path_lookup(Tree::Leaf(time), none) == Lookup::Found(time));
    assert(label_search(left, REQUEST_STATUS_LABEL@) == LabelSearch::Found(requests));
    assert(label_search(t, REQUEST_STATUS_LABEL@) == LabelSearch::Found(requests));
    assert(seq![REQUEST_STATUS_LABEL@].drop_first() =~= none);
    assert(subtree_lookup(requests, none) == SubtreeLookup::Found(requests));
}

/// The paths of one request that was replied to: to its reply and to its
/// status.
proof fn lemma_replied_request_paths(id: Seq<u8>, reply: Seq<u8>)
    ensures
        tree_paths(replied_request(id, reply), Seq::empty()) == seq![
            seq![id, REPLY_LABEL@],
            seq![id, STATUS_LABEL@],
        ],
{
    let prefix = Seq::<Seq<u8>>::empty().push(id);
    let reply_node = Tree::Labeled(REPLY_LABEL@, Box::new(Tree::Leaf(reply)));
    let status_node = Tree::Labeled(STATUS_LABEL@, Box::new(Tree::Leaf(REPLIED@)));
    let below = Tree::Fork(Box::new(reply_node), Box::new(status_node));
    assert(prefix.push(REPLY_LABEL@) =~= seq![id, REPLY_LABEL@]);
    assert(prefix.push(STATUS_LABEL@) =~= seq![id, STATUS_LABEL@]);
    assert(tree_paths(Tree::Leaf(reply), prefix.push(REPLY_LABEL@)) == seq![
        seq![id, REPLY_LABEL@],
    ]);
    assert(tree_paths(Tree::Leaf(REPLIED@), prefix.push(STATUS_LABEL@)) == seq![
        seq![id, STATUS_LABEL@],
    ]);
    assert(tree_paths(reply_node, prefix) == seq![seq![id, REPLY_LABEL@]]);
    assert(tree_paths(status_node, prefix) == seq![seq![id, STATUS_LABEL@]]);
    assert(tree_paths(below, prefix) =~= seq![seq![id, REPLY_LABEL@], seq![id, STATUS_LABEL@]]);
    assert(tree_paths(replied_request(id, reply), Seq::empty()) == tree_paths(below, prefix));
}

/// From a tree that shows one request with the status `replied` and a reply,
/// the extraction gives that request's identifier, the status `replied` and
/// the reply, with the time.
pub proof fn law_replied_request_is_extracted(time: Seq<u8>, id: Seq<u8>, reply: Seq<u8>)
    ensures
        extraction(status_tree(time, replied_request(id, reply))) == Ok::<
            RequestStatusModel,
            ExtractFailure,
        >(RequestStatusModel { time, id, status: "replied"@, reply }),
{
    let sub = replied_request(id, reply);
    let t = status_tree(time, sub);
    let below = Tree::Fork(
        Box::new(Tree::Labeled(REPLY_LABEL@, Box::new(Tree::Leaf(reply)))),
        Box::new(Tree::Labeled(STATUS_LABEL@, Box::new(Tree::Leaf(REPLIED@)))),
    );
    let none = Seq::<Seq<u8>>::empty();
    lemma_status_tree_lookups(time, sub);
    let paths = tree_paths(sub, none);
    lemma_replied_request_paths(id, reply);
    assert(is_sole_first_label(paths, id)) by {
        assert(paths[0][0] == id);
    }
    lemma_sole_first_label_unique(paths, id, sole_id(paths).unwrap());
    // the status and the reply
    assert(label_search(sub, id) == LabelSearch::Found(below));
    assert(STATUS_LABEL@ != REPLY_LABEL@) by {
        assert(STATUS_LABEL@.len() != REPLY_LABEL@.len());
    }
    assert(!sorts_before(STATUS_LABEL@, REPLY_LABEL@));
    let reply_node = Tree::Labeled(REPLY_LABEL@, Box::new(Tree::Leaf(reply)));
    let status_node = Tree::Labeled(STATUS_LABEL@, Box::new(Tree::Leaf(REPLIED@)));
    assert(label_search(reply_node, STATUS_LABEL@) == LabelSearch::Greater);
    assert(label_search(status_node, STATUS_LABEL@) == LabelSearch::Found(Tree::Leaf(REPLIED@)));
    assert(label_search(reply_node, REPLY_LABEL@) == LabelSearch::Found(Tree::Leaf(reply)));
    assert(label_search(below, STATUS_LABEL@) == LabelSearch::Found(Tree::Leaf(REPLIED@)));
    assert(label_search(below, REPLY_LABEL@) == LabelSearch::Found(Tree::Leaf(reply)));
    assert(path_lookup(Tree::Leaf(REPLIED@), none) == Lookup::Found(REPLIED@));
    assert(path_lookup(Tree::Leaf(reply), none) == Lookup::Found(reply));
    assert(seq![id, STATUS_LABEL@].drop_first() =~= seq![STATUS_LABEL@]);
    assert(seq![id, REPLY_LABEL@].drop_first() =~= seq![REPLY_LABEL@]);
    assert(seq![STATUS_LABEL@].drop_first() =~= none);
    assert(seq![REPLY_LABEL@].drop_first() =~= none);
    assert(path_lookup(below, seq![STATUS_LABEL@]) == Lookup::Found(REPLIED@));
    assert(path_lookup(below, seq![REPLY_LABEL@]) == Lookup::Found(reply));
    assert(path_lookup(sub, seq![id, STATUS_LABEL@]) == Lookup::Found(REPLIED@));
    assert(path_lookup(sub, seq![id, REPLY_LABEL@]) == Lookup::Found(reply));
    law_replied_bytes_are_read_as_replied();
}

/// Two requests with different identifiers below `request_status` leave the
/// identifier ambiguous.
pub proof fn law_second_identifier_is_ambiguous(
    time: Seq<u8>,
    first: Seq<u8>,
    first_reply: Seq<u8>,
    second: Seq<u8>,
    second_reply: Seq<u8>,
)
    requires
        first != second,
    ensures
        extraction(
            status_tree(
                time,
                Tree::Fork(
                    Box::new(replied_request(first, first_reply)),
                    Box::new(replied_request(second, second_reply)),
                ),
            ),
        ) == Err::<RequestStatusModel, ExtractFailure>(ExtractFailure::AmbiguousRequestId),
{
    let sub = Tree::Fork(
        Box::new(replied_request(first, first_reply)),
        Box::new(replied_request(second, second_reply)),
    );
    let t = status_tree(time, sub);
    let none = Seq::<Seq<u8>>::empty();
    lemma_status_tree_lookups(time, sub);
    let paths = tree_paths(sub, none);
    let one = tree_paths(replied_request(first, first_reply), none);
    let two = tree_paths(replied_request(second, second_reply), none);
    lemma_replied_request_paths(first, first_reply);
    lemma_replied_request_paths(second, second_reply);
    assert(paths == one + two);
    assert(paths[0][0] == first);
    assert(paths[2][0] == second);
    assert forall|id: Seq<u8>| !is_sole_first_label(paths, id) by {
        if is_sole_first_label(paths, id) {
            assert(paths[0][0] == id);
            assert(paths[2][0] == id);
        }
    }
}

} // verus!
