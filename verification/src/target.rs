//! The revision that a reference is pointed at.

use vstd::prelude::*;
use crate::bytes::{byte_strings, copy_bytes};
use crate::delegate::StubDisambDelegate;
use crate::error::{Operation, StoreError};
use crate::resolver::{answers, MaybeAmbigRef, Resolution};
use crate::store::{describe, holds_object_id, rev_parse_single};
use crate::victim::{commit_summary, summary_of};

verus! {

/// The revision that the reference is pointed at, as it was resolved.
#[derive(Debug, Clone, PartialEq, Eq, Hash)]
pub struct TargetRev {
    /// The revision as it was asked for.
    pub revspec: Vec<u8>,
    /// The commit that the revision names.
    pub resolved_id: Vec<u8>,
    /// The first line of that commit's message.
    pub summary: Vec<u8>,
}

/// Why a revision could not be resolved.
#[derive(Debug, Clone)]
pub enum TargetFailure {
    /// A reference name in the revision means several references.
    Ambiguous { requested: Vec<u8>, possible: Vec<Vec<u8>> },
    /// The store failed.
    Store(StoreError),
}

/// What is left of parsing a revision: whether the parser failed and with
/// what words, what the last reference name in it resolved to, and the
/// failure of the store that stopped the parser, if one did.
#[derive(Debug, Clone)]
pub struct ParseOutcome {
    pub parse_failure: Option<String>,
    pub found_refs: Option<MaybeAmbigRef>,
    pub error: Option<StoreError>,
}

/// Whether a failure is the parser's own, for the given revision and words.
pub open spec fn is_parser_failure(failure: TargetFailure, revspec: Seq<u8>, detail: String) -> bool {
    failure matches TargetFailure::Store(inner) && inner.operation == Operation::ParseRevspec
        && inner.subject@ == revspec && inner.detail == detail
}

/// Judges a parsed revision. A failure of the store that stopped the parser
/// comes first, then any other failure of the parser, then an ambiguous
/// reference name; else the revision may be resolved.
pub fn judge(revspec: &Vec<u8>, outcome: ParseOutcome) -> (verdict: Result<(), TargetFailure>)
    ensures
        outcome.parse_failure is Some && outcome.error is Some ==> verdict == Err::<
            (),
            TargetFailure,
        >(TargetFailure::Store(outcome.error->0)),
        outcome.parse_failure is Some && outcome.error is None ==> (verdict matches Err(failure)
            && is_parser_failure(failure, revspec@, outcome.parse_failure->0)),
        outcome.parse_failure is None ==> match outcome.found_refs {
            Some(MaybeAmbigRef::Ambiguous { requested, possible }) => verdict == Err::<
                (),
                TargetFailure,
            >(TargetFailure::Ambiguous { requested, possible }),
            _ => verdict is Ok,
        },
{
    match outcome.parse_failure {
        Some(detail) => match outcome.error {
            Some(failure) => Err(TargetFailure::Store(failure)),
            None => Err(
                TargetFailure::Store(
                    StoreError {
                        operation: Operation::ParseRevspec,
                        subject: copy_bytes(revspec),
                        detail,
                    },
                ),
            ),
        },
        None => match outcome.found_refs {
            Some(MaybeAmbigRef::Ambiguous { requested, possible }) => Err(
                TargetFailure::Ambiguous { requested, possible },
            ),
            _ => Ok(()),
        },
    }
}

impl TargetRev {
    /// Puts together what was read of a revision: the commit that it names
    /// and the summary of that commit.
    pub fn assemble(revspec: Vec<u8>, resolved_id: Vec<u8>, summary: Vec<u8>) -> (target: TargetRev)
        ensures
            target.revspec@ == revspec@,
            target.resolved_id@ == resolved_id@,
            target.summary@ == summary@,
    {
        TargetRev { revspec, resolved_id, summary }
    }

    /// Resolves a revision to a commit and reads that commit's summary,
    /// unless a reference name in the revision is ambiguous.
    ///
    /// Whatever the store answers, a result keeps `revspec`, holds an object
    /// id, and its summary is the summary of some message; and an ambiguity
    /// is an answer of the resolver: it names two references or more, each
    /// after the first another than the first and with the requested name
    /// for its short form.
    pub fn from(repo: &gix::Repository, revspec: Vec<u8>) -> (target: Result<TargetRev, TargetFailure>)
        ensures
            target matches Ok(resolved) ==> {
                &&& resolved.revspec@ == revspec@
                &&& holds_object_id(resolved.resolved_id@)
                &&& exists|message: Seq<u8>| resolved.summary@ == #[trigger] summary_of(message)
            },
            target matches Err(TargetFailure::Ambiguous { requested, possible }) ==> answers(
                Resolution::Ambiguous { requested: requested@, possible: byte_strings(possible@) },
                requested@,
            ),
    {
        let mut delegate = StubDisambDelegate::new(repo);
        let parse_failure = match delegate.parse(&revspec) {
            Ok(()) => None,
            Err(cause) => Some(describe(&cause)),
        };
        let outcome = ParseOutcome {
            parse_failure,
            found_refs: delegate.found_refs,
            error: delegate.error,
        };
        match judge(&revspec, outcome) {
            Ok(()) => {},
            Err(failure) => {
                return Err(failure);
            },
        }
        let resolved_id = match rev_parse_single(repo, &revspec) {
            Ok(id) => id,
            Err(cause) => {
                return Err(
                    TargetFailure::Store(
                        StoreError {
                            operation: Operation::ParseRevspec,
                            subject: revspec,
                            detail: describe(&cause),
                        },
                    ),
                );
            },
        };
        let summary = match commit_summary(repo, &resolved_id) {
            Ok(summary) => summary,
            Err(failure) => {
                return Err(TargetFailure::Store(failure));
            },
        };
        Ok(TargetRev::assemble(revspec, resolved_id, summary))
    }
}

} // verus!
