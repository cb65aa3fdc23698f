//! The boundary to the repository: the calls into `gix` and `bstr`, each
//! behind a contract that is believed and not proved. Only the hook into the
//! parser of revisions keeps its own, beside the delegate.
//!
//! What a call returns depends on what the store holds at that moment, so
//! most of these contracts promise nothing; the callers are verified for every
//! answer. What depends on the arguments alone is stated: the short form of
//! a name, whether a name is a valid full name, whether bytes are an object
//! id and that an id handed out is one, the prefix of a namespace, and the
//! first line of a text.

use vstd::prelude::*;
use bstr::BStr;
use gix::refs::transaction::{Change, LogChange, PreviousValue, RefEdit, RefLog};
use gix::refs::FullName;
use gix::ObjectId;
use crate::bytes::text;
use crate::model::{opt_bytes, RefSnapshot, RefTarget};
use crate::transaction::{LogMode, StoreEdit};

verus! {

/// A repository handle of `gix`; nothing inside it is visible to proofs.
#[verifier::external_type_specification]
#[verifier::external_body]
pub struct ExRepository(gix::Repository);

/// The error type of `gix`.
#[verifier::external_type_specification]
#[verifier::external_body]
pub struct ExError(gix::Error);

/// A reference of `gix`, bound to the repository it was read from.
#[verifier::external_type_specification]
#[verifier::external_body]
pub struct ExReference<'repo>(gix::Reference<'repo>);

/// A commit of `gix`, bound to the repository it was read from.
#[verifier::external_type_specification]
#[verifier::external_body]
pub struct ExCommit<'repo>(gix::Commit<'repo>);

/// An entry of `gix` for a linked working copy that has not been opened yet.
#[verifier::external_type_specification]
#[verifier::external_body]
pub struct ExProxy<'repo>(gix::worktree::Proxy<'repo>);

/// A full reference name that `gix` has validated.
#[verifier::external_type_specification]
#[verifier::external_body]
pub struct ExFullName(gix::refs::FullName);

/// An object id of `gix`.
#[verifier::external_type_specification]
#[verifier::external_body]
pub struct ExObjectId(gix::ObjectId);

/// The short form that `gix` gives a full reference name: the name without
/// its well-known namespace, or the name itself where it has none.
pub uninterp spec fn short_form(full_name: Seq<u8>) -> Seq<u8>;

/// Whether `gix` accepts a byte string as a full reference name.
pub uninterp spec fn valid_full_name(name: Seq<u8>) -> bool;

/// The length of an object id: that of the one hash that `gix` is built
/// with here.
pub const OBJECT_ID_LEN: usize = 20;

/// Whether `gix` takes a byte string for an object id, which it decides by
/// the length alone.
pub open spec fn holds_object_id(bytes: Seq<u8>) -> bool {
    bytes.len() == OBJECT_ID_LEN
}

/// The namespaces of the store that this library makes references in.
#[derive(Debug, Clone, Copy, PartialEq, Eq, Structural)]
pub enum RefCategory {
    Tag,
    LocalBranch,
    RemoteBranch,
}

/// The prefix under which the store keeps the references of a namespace.
pub open spec fn category_prefix_of(category: RefCategory) -> Seq<u8> {
    match category {
        RefCategory::Tag => text("refs/tags/"),
        RefCategory::LocalBranch => text("refs/heads/"),
        RefCategory::RemoteBranch => text("refs/remotes/"),
    }
}

/// The byte that ends a line.
pub const LINE_FEED: u8 = 10;

/// The byte that may stand before a line feed and then belongs to it.
pub const CARRIAGE_RETURN: u8 = 13;

/// Where the first line feed of `text` stands, or the length of `text` if it
/// has none.
pub open spec fn first_line_feed(text: Seq<u8>) -> int
    decreases text.len(),
{
    if text.len() == 0 || text[0] == LINE_FEED {
        0
    } else {
        1 + first_line_feed(text.skip(1))
    }
}

/// The first line of `text` without its terminator, which is a line feed or a
/// carriage return and a line feed; none if `text` is empty.
pub open spec fn first_line_of(text: Seq<u8>) -> Option<Seq<u8>> {
    let end = first_line_feed(text);
    if text.len() == 0 {
        None
    } else if 0 < end < text.len() && text[end - 1] == CARRIAGE_RETURN {
        Some(text.subrange(0, end - 1))
    } else {
        Some(text.subrange(0, end))
    }
}

/// Calls `gix::Repository::find_reference`, which takes a short or a full
/// name. Nothing is claimed of the answer.
#[verifier::external_body]
pub(crate) fn find_reference<'repo>(repo: &'repo gix::Repository, name: &Vec<u8>) -> (found: Result<
    gix::Reference<'repo>,
    gix::Error,
>) {
    repo.find_reference(bstr::BStr::new(name))
}

/// Calls `gix::Repository::try_find_reference`, which answers `None` where
/// no reference goes by the name. Nothing is claimed of the answer.
#[verifier::external_body]
pub(crate) fn try_find_reference<'repo>(repo: &'repo gix::Repository, name: &Vec<u8>) -> (found:
    Result<Option<gix::Reference<'repo>>, gix::Error>) {
    repo.try_find_reference(bstr::BStr::new(name))
}

/// Walks every reference of the store with `gix::Repository::references` and
/// `all`, keeping each item as it came, readable or not. Nothing is claimed
/// of the answer, not even its order.
#[verifier::external_body]
pub(crate) fn all_references<'repo>(repo: &'repo gix::Repository) -> (listed: Result<
    Vec<Result<gix::Reference<'repo>, gix::Error>>,
    gix::Error,
>) {
    Ok(repo.references()?.all()?.collect())
}

/// Copies out of a `gix::Reference` its full name, its target, its peeled
/// object and the short form that `gix_ref::FullNameRef::shorten` gives the
/// name. Claimed: the short form is that of the name.
#[verifier::external_body]
pub(crate) fn snapshot_of(reference: &gix::Reference<'_>) -> (snapshot: RefSnapshot)
    ensures
        snapshot.short@ == short_form(snapshot.name@),
{
    RefSnapshot {
        name: reference.name().as_bstr().to_vec(),
        short: reference.name().shorten().to_vec(),
        target: match &reference.inner.target {
            gix::refs::Target::Object(id) => RefTarget::Object(id.as_slice().to_vec()),
            gix::refs::Target::Symbolic(name) => RefTarget::Symbolic(name.as_bstr().to_vec()),
        },
        peeled: reference.inner.peeled.map(|id| id.as_slice().to_vec()),
    }
}

/// Picks the repository that a `gix::Reference` is bound to.
#[verifier::external_body]
pub(crate) fn repository_of<'repo>(reference: &gix::Reference<'repo>) -> (repo: &'repo gix::Repository) {
    reference.repo
}

/// Calls `gix::Reference::into_fully_peeled_id` on a copy of the reference
/// and hands out the bytes of the id. Claimed: what is handed out has the
/// length of an object id.
#[verifier::external_body]
pub(crate) fn peeled_id(reference: &gix::Reference<'_>) -> (id: Result<Vec<u8>, gix::Error>)
    ensures
        id matches Ok(bytes) ==> holds_object_id(bytes@),
{
    reference.clone().into_fully_peeled_id().map(|id| id.detach().as_slice().to_vec())
}

/// Calls `gix::Repository::rev_parse_single` and hands out the bytes of the
/// id. Claimed: what is handed out has the length of an object id.
#[verifier::external_body]
pub(crate) fn rev_parse_single(repo: &gix::Repository, revspec: &Vec<u8>) -> (id: Result<
    Vec<u8>,
    gix::Error,
>)
    ensures
        id matches Ok(bytes) ==> holds_object_id(bytes@),
{
    repo.rev_parse_single(bstr::BStr::new(revspec)).map(|id| id.detach().as_slice().to_vec())
}

/// Calls `gix::Repository::find_commit`, which fails where there is no such
/// object or it is no commit. Nothing is claimed of the answer.
#[verifier::external_body]
pub(crate) fn find_commit<'repo>(repo: &'repo gix::Repository, id: gix::ObjectId) -> (commit: Result<
    gix::Commit<'repo>,
    gix::Error,
>) {
    repo.find_commit(id)
}

/// Calls `gix::Commit::message_raw` and copies the message. Nothing is
/// claimed of the answer.
#[verifier::external_body]
pub(crate) fn message_raw(commit: &gix::Commit<'_>) -> (message: Result<Vec<u8>, gix::Error>) {
    commit.message_raw().map(|message| message.to_vec())
}

/// Takes the first item of `bstr::ByteSlice::lines`. Claimed: it is the first
/// line of the text without its terminator, and there is none in an empty
/// text.
#[verifier::external_body]
pub(crate) fn first_line(message: &Vec<u8>) -> (line: Option<Vec<u8>>)
    ensures
        opt_bytes(line) == first_line_of(message@),
{
    bstr::ByteSlice::lines(message.as_slice()).next().map(|line| line.to_vec())
}

/// Calls `gix_ref::Category::prefix` on the category of the same name.
/// Claimed: the prefix is the one written out in `category_prefix_of`.
#[verifier::external_body]
pub(crate) fn category_prefix(category: RefCategory) -> (prefix: Vec<u8>)
    ensures
        prefix@ == category_prefix_of(category),
{
    let category = match category {
        RefCategory::Tag => gix::refs::Category::Tag,
        RefCategory::LocalBranch => gix::refs::Category::LocalBranch,
        RefCategory::RemoteBranch => gix::refs::Category::RemoteBranch,
    };
    category.prefix().to_vec()
}

/// Calls `gix::Repository::head_ref`, which answers `None` where the
/// checkout pointer is detached or points at no reference yet. Nothing is
/// claimed of the answer.
#[verifier::external_body]
pub(crate) fn head_ref<'repo>(repo: &'repo gix::Repository) -> (head: Result<
    Option<gix::Reference<'repo>>,
    gix::Error,
>) {
    repo.head_ref()
}

/// Calls `gix::Repository::workdir` and renders the path. Nothing is claimed
/// of the answer.
#[verifier::external_body]
pub(crate) fn workdir(repo: &gix::Repository) -> (dir: Option<String>) {
    repo.workdir().map(|path| path.display().to_string())
}

/// Calls `gix::Repository::worktrees`, which lists the linked working
/// copies. Nothing is claimed of the answer.
#[verifier::external_body]
pub(crate) fn worktrees<'repo>(repo: &'repo gix::Repository) -> (linked: Result<
    Vec<gix::worktree::Proxy<'repo>>,
    gix::Error,
>) {
    repo.worktrees()
}

/// Calls `gix::worktree::Proxy::into_repo_with_possibly_inaccessible_worktree`
/// on a copy of the entry. Nothing is claimed of the answer.
#[verifier::external_body]
pub(crate) fn open_worktree(entry: &gix::worktree::Proxy<'_>) -> (opened: Result<
    gix::Repository,
    gix::Error,
>) {
    entry.clone().into_repo_with_possibly_inaccessible_worktree()
}

/// Validates a full reference name with `gix_ref::FullName::try_from`.
/// Claimed: there is an answer exactly for the names that `gix` accepts.
#[verifier::external_body]
pub(crate) fn full_name(name: &Vec<u8>) -> (validated: Option<gix::refs::FullName>)
    ensures
        validated is Some <==> valid_full_name(name@),
{
    gix::refs::FullName::try_from(bstr::BStr::new(name)).ok()
}

/// Makes an object id of its bytes with `gix_hash::ObjectId::try_from`, which
/// refuses a length that is no hash's. Claimed: there is an answer exactly
/// for the byte strings of the length of an object id.
#[verifier::external_body]
pub(crate) fn object_id(bytes: &Vec<u8>) -> (id: Option<gix::ObjectId>)
    ensures
        id is Some <==> holds_object_id(bytes@),
{
    gix::ObjectId::try_from(bytes.as_slice()).ok()
}

/// Calls `gix::Repository::edit_reference` with one edit, which is `edit`
/// turned field by field into the edit of `gix`: the name, the expected
/// state, the new value, the line for the log and how the log is kept. A
/// name or an id that `gix` does not take fails in the turning. Nothing is
/// claimed of the answer.
#[verifier::external_body]
pub(crate) fn edit_reference(repo: &gix::Repository, edit: &StoreEdit) -> (done: Result<(), gix::Error>) {
    let name = FullName::try_from(BStr::new(&edit.name)).map_err(gix::Error::from_error)?;
    let expected = match &edit.expected {
        Some(id) => PreviousValue::MustExistAndMatch(ObjectId::try_from(id.as_slice())?.into()),
        None => PreviousValue::MustNotExist,
    };
    let mode = match edit.mode {
        LogMode::AndReference => RefLog::AndReference,
        LogMode::Only => RefLog::Only,
    };
    let log = LogChange { mode, force_create_reflog: edit.always_log, message: edit.message.clone().into() };
    let new = ObjectId::try_from(edit.new_value.as_slice())?.into();
    let change = Change::Update { log, expected, new };
    repo.edit_reference(RefEdit { change, name, deref: edit.follow_symbolic }).map(|_| ())
}

/// Calls `gix::Error::is_conflict`: whether the failure says that the store
/// is in another state than the operation expected.
#[verifier::external_body]
pub(crate) fn is_conflict(error: &gix::Error) -> (conflict: bool) {
    error.is_conflict()
}

/// Calls `gix::Error::is_not_found`: whether the failure says that something
/// asked for does not exist.
#[verifier::external_body]
pub(crate) fn is_not_found(error: &gix::Error) -> (missing: bool) {
    error.is_not_found()
}

/// Renders a `gix::Error` for the operator, by its `Display`.
#[verifier::external_body]
pub(crate) fn describe(error: &gix::Error) -> (rendered: String) {
    format!("{error}")
}

} // verus!
