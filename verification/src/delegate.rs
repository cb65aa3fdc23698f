//! The hook into the parser of revisions.
//!
//! The parser of `gix` reports what it meets in a revision, event by event.
//! The only event that matters here is a reference name: it is resolved
//! against the store, to learn whether it is ambiguous. Every other event
//! is let through.

use vstd::prelude::*;
use crate::error::{Operation, StoreError};
use crate::resolver::{answers, MaybeAmbigRef, RepositoryExt};

verus! {

/// How a revision combines its parts, as `gix` tells it.
#[verifier::external_type_specification]
#[verifier::external_body]
pub struct ExSpecKind(gix::revision::plumbing::spec::Kind);

/// A step along the history, as `gix` tells it.
#[verifier::external_type_specification]
#[verifier::external_body]
pub struct ExTraversal(gix::revision::plumbing::spec::parse::delegate::Traversal);

/// The kind of object to peel to, as `gix` tells it.
#[verifier::external_type_specification]
#[verifier::external_body]
pub struct ExPeelTo<'a>(gix::revision::plumbing::spec::parse::delegate::PeelTo<'a>);

/// A hint for telling object prefixes apart, as `gix` tells it.
#[verifier::external_type_specification]
#[verifier::external_body]
pub struct ExPrefixHint<'a>(gix::revision::plumbing::spec::parse::delegate::PrefixHint<'a>);

/// A lookup in a reference's log, as `gix` tells it.
#[verifier::external_type_specification]
#[verifier::external_body]
pub struct ExReflogLookup(gix::revision::plumbing::spec::parse::delegate::ReflogLookup);

/// The kind of a sibling branch, as `gix` tells it.
#[verifier::external_type_specification]
#[verifier::external_body]
pub struct ExSiblingBranch(gix::revision::plumbing::spec::parse::delegate::SiblingBranch);

/// The prefix of an object id, as `gix` tells it.
#[verifier::external_type_specification]
#[verifier::external_body]
pub struct ExPrefix(gix::hash::Prefix);

/// A borrowed byte string of `bstr`.
#[verifier::external_type_specification]
#[verifier::external_body]
pub struct ExBStr(bstr::BStr);

/// Copies the bytes of a `bstr::BStr`.
#[verifier::external_body]
fn bstr_bytes(name: &bstr::BStr) -> (bytes: Vec<u8>) {
    name.to_vec()
}

/// Makes a `gix::Error` that carries `detail`, with
/// `gix_error::Error::from_error`.
#[verifier::external_body]
fn parser_error(detail: &String) -> (error: gix::Error) {
    gix::Error::from_error(gix::error::Message::new(detail.clone()))
}

/// A delegate for the parser of revisions that does nothing but resolve the
/// reference names it is told of.
#[derive(Debug)]
pub struct StubDisambDelegate<'repo> {
    /// The repository whose store the names are resolved against.
    pub repo: &'repo gix::Repository,
    /// How the revision combines its parts, once the parser has said so.
    pub kind: Option<gix::revision::plumbing::spec::Kind>,
    /// What the last reference name resolved to.
    pub found_refs: Option<MaybeAmbigRef>,
    /// The failure that stopped the parser.
    pub error: Option<StoreError>,
}

/// Whether `failure` is that of resolving `name`, in the store's words
/// `detail`: the lookup of the name failed, or the walk of the references.
pub open spec fn is_lookup_failure(failure: StoreError, name: Seq<u8>, detail: String) -> bool {
    &&& failure.subject@ == name
    &&& failure.detail == detail
    &&& failure.operation == Operation::FindReference || failure.operation
        == Operation::ListReferences
}

impl<'repo> StubDisambDelegate<'repo> {
    /// A delegate for the given repository that has seen nothing yet.
    pub fn new(repo: &'repo gix::Repository) -> (fresh: Self)
        ensures
            fresh.repo == repo,
            fresh.kind is None,
            fresh.found_refs is None,
            fresh.error is None,
    {
        Self { repo, kind: None, found_refs: None, error: None }
    }

    /// Runs `gix::revision::plumbing::spec::parse` on `revspec` with this
    /// delegate, which is told of each event through the methods below.
    /// Nothing is claimed of the answer. Claimed of the delegate: the parser
    /// reaches it through those methods alone, and the only one of them that
    /// sets `found_refs` sets it to an answer of the resolver; so
    /// `found_refs` is as it was or holds such an answer.
    #[verifier::external_body]
    pub fn parse(&mut self, revspec: &Vec<u8>) -> (parsed: Result<(), gix::Error>)
        ensures
            final(self).found_refs == old(self).found_refs || (final(self).found_refs matches Some(
                found,
            ) && exists|asked: Seq<u8>| answers(found@, asked)),
    {
        gix::revision::plumbing::spec::parse(bstr::BStr::new(revspec), self)
    }

    /// Records what the resolver answered for a reference name. An answer
    /// is kept as what the last name resolved to, and the parser goes on. A
    /// failure is kept unless one was kept before, and its words are handed
    /// back for the parser to stop on.
    pub fn record(&mut self, resolved: Result<MaybeAmbigRef, StoreError>) -> (stopped: Option<String>)
        ensures
            match resolved {
                Ok(found) => {
                    &&& stopped is None
                    &&& final(self).found_refs == Some(found)
                    &&& final(self).error == old(self).error
                },
                Err(failure) => {
                    &&& stopped == Some(failure.detail)
                    &&& final(self).found_refs == old(self).found_refs
                    &&& final(self).error == if old(self).error is Some {
                        old(self).error
                    } else {
                        Some(failure)
                    }
                },
            },
            final(self).kind == old(self).kind,
            final(self).repo == old(self).repo,
    {
        match resolved {
            Ok(found) => {
                self.found_refs = Some(found);
                None
            },
            Err(failure) => {
                let detail = failure.detail.clone();
                if self.error.is_none() {
                    self.error = Some(failure);
                }
                Some(detail)
            },
        }
    }

    /// Resolves a reference name that the parser met against the store and
    /// records the answer, as [`Self::record`] says.
    ///
    /// Whatever the store answers: where the parser may go on, `found_refs`
    /// holds an answer of the resolver for `name`; where it is to stop, the
    /// failure kept is the first, which is that of looking `name` up if none
    /// was kept before.
    pub fn resolve(&mut self, name: &Vec<u8>) -> (stopped: Option<String>)
        ensures
            stopped is None ==> {
                &&& final(self).found_refs matches Some(found) && answers(found@, name@)
                &&& final(self).error == old(self).error
            },
            stopped matches Some(detail) ==> {
                &&& final(self).found_refs == old(self).found_refs
                &&& match old(self).error {
                    Some(first) => final(self).error == Some(first),
                    None => final(self).error matches Some(failure) && is_lookup_failure(
                        failure,
                        name@,
                        detail,
                    ),
                }
            },
            final(self).kind == old(self).kind,
            final(self).repo == old(self).repo,
    {
        let resolved = self.repo.find_ambiguous_references(name);
        self.record(resolved)
    }
}

impl<'repo> gix::revision::plumbing::spec::parse::delegate::Kind for StubDisambDelegate<'repo> {
    /// Notes how the revision combines its parts, and lets the parser go on.
    fn kind(&mut self, kind: gix::revision::plumbing::spec::Kind) -> (told: gix::Result<()>)
        ensures
            told is Ok,
            final(self).kind == Some(kind),
            final(self).found_refs == old(self).found_refs,
            final(self).error == old(self).error,
            final(self).repo == old(self).repo,
    {
        self.kind = Some(kind);
        Ok(())
    }
}

impl<'repo> gix::revision::plumbing::spec::parse::delegate::Navigate for StubDisambDelegate<'repo> {
    /// Lets a step along the history pass.
    fn traverse(&mut self, kind: gix::revision::plumbing::spec::parse::delegate::Traversal) -> (told:
        gix::Result<()>)
        ensures
            told is Ok,
            *final(self) == *old(self),
    {
        Ok(())
    }

    /// Lets a peeling pass.
    fn peel_until(&mut self, kind: gix::revision::plumbing::spec::parse::delegate::PeelTo<'_>) -> (told:
        gix::Result<()>)
        ensures
            told is Ok,
            *final(self) == *old(self),
    {
        Ok(())
    }

    /// Lets a search of the messages pass.
    fn find(&mut self, regex: &bstr::BStr, negated: bool) -> (told: gix::Result<()>)
        ensures
            told is Ok,
            *final(self) == *old(self),
    {
        Ok(())
    }

    /// Lets a lookup in the index pass.
    fn index_lookup(&mut self, path: &bstr::BStr, stage: u8) -> (told: gix::Result<()>)
        ensures
            told is Ok,
            *final(self) == *old(self),
    {
        Ok(())
    }
}

impl<'repo> gix::revision::plumbing::spec::parse::delegate::Revision for StubDisambDelegate<'repo> {
    /// Resolves the reference name that the parser met, as [`Self::resolve`]
    /// does, and stops the parser where the store failed.
    fn find_ref(&mut self, name: &bstr::BStr) -> (told: gix::Result<()>)
        ensures
            told is Ok ==> {
                &&& final(self).found_refs matches Some(found) && exists|asked: Seq<u8>|
                    answers(found@, asked)
                &&& final(self).error == old(self).error
            },
            told is Err ==> {
                &&& final(self).found_refs == old(self).found_refs
                &&& match old(self).error {
                    Some(first) => final(self).error == Some(first),
                    None => final(self).error matches Some(failure) && (failure.operation
                        == Operation::FindReference || failure.operation
                        == Operation::ListReferences),
                }
            },
            final(self).kind == old(self).kind,
            final(self).repo == old(self).repo,
    {
        let name = bstr_bytes(name);
        match self.resolve(&name) {
            None => Ok(()),
            Some(detail) => Err(parser_error(&detail)),
        }
    }

    /// Lets the prefix of an object id pass.
    fn disambiguate_prefix(
        &mut self,
        prefix: gix::hash::Prefix,
        hint: Option<gix::revision::plumbing::spec::parse::delegate::PrefixHint<'_>>,
    ) -> (told: gix::Result<()>)
        ensures
            told is Ok,
            *final(self) == *old(self),
    {
        Ok(())
    }

    /// Lets a lookup in a reference's log pass.
    fn reflog(&mut self, query: gix::revision::plumbing::spec::parse::delegate::ReflogLookup) -> (told:
        gix::Result<()>)
        ensures
            told is Ok,
            *final(self) == *old(self),
    {
        Ok(())
    }

    /// Lets a lookup of an earlier checkout pass.
    fn nth_checked_out_branch(&mut self, branch_no: usize) -> (told: gix::Result<()>)
        ensures
            told is Ok,
            *final(self) == *old(self),
    {
        Ok(())
    }

    /// Lets a lookup of a sibling branch pass.
    fn sibling_branch(&mut self, kind: gix::revision::plumbing::spec::parse::delegate::SiblingBranch) -> (told:
        gix::Result<()>)
        ensures
            told is Ok,
            *final(self) == *old(self),
    {
        Ok(())
    }
}

impl<'repo> gix::revision::plumbing::spec::parse::Delegate for StubDisambDelegate<'repo> {
    /// Has nothing left to do at the end of a revision.
    fn done(&mut self) -> (told: gix::Result<()>)
        ensures
            told is Ok,
            *final(self) == *old(self),
    {
        Ok(())
    }
}

} // verus!
