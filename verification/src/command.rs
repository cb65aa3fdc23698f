//! One invocation from start to end: resolve the reference, resolve the
//! revision, guard the working copies, apply the update.
//!
//! Nothing here ends the process. Every way in which an invocation can end
//! is a value, and [`exit_code`] gives the status that goes with it.

use vstd::prelude::*;
use crate::bytes::{bytes_eq, copy_bytes};
use crate::error::{Operation, StoreError};
use crate::guard::{
    check_worktrees, checkout_values, find_conflict, is_first_conflict, Checkout,
};
use crate::model::{opt_bytes, NewRefKind, RefSnapshot};
use crate::resolver::{MaybeAmbigRef, RepositoryExt};
use crate::store::{
    describe, find_reference, holds_object_id, peeled_id, snapshot_of, try_find_reference,
    valid_full_name,
};
use crate::target::{TargetFailure, TargetRev};
use crate::transaction::{commit, FailureKind, TransactionError, TransactionRequest};
use crate::victim::{prefix_of, KnownVictim, NewVictim, Victim};

verus! {

/// What the operator asked for.
#[derive(Debug, Clone)]
pub struct Invocation {
    /// The reference to move or to make.
    pub from: Vec<u8>,
    /// The revision to point it at.
    pub to: Vec<u8>,
    /// The namespace to make the reference in; none to move one that
    /// exists.
    pub new: Option<NewRefKind>,
    /// Whether a reference may be moved though a working copy has it
    /// checked out.
    pub allow_worktree: bool,
}

/// A reference that was moved or made, and where it points now.
#[derive(Debug, Clone)]
pub struct Moved {
    pub victim: Victim,
    pub target: TargetRev,
}

/// Why an invocation changed nothing.
#[derive(Debug, Clone)]
pub enum Refusal {
    /// The name of the reference means several references.
    AmbiguousVictim { requested: Vec<u8>, possible: Vec<Vec<u8>> },
    /// A reference name in the revision means several references.
    AmbiguousTarget { requested: Vec<u8>, revspec: Vec<u8>, possible: Vec<Vec<u8>> },
    /// A working copy in `dir` has the reference checked out.
    CheckedOut { name: Vec<u8>, short: Vec<u8>, dir: String },
    /// The reference to make exists, at `id` where that could be told.
    AlreadyExists { name: Vec<u8>, id: Option<Vec<u8>> },
    /// The store failed while the reference was resolved.
    Store(StoreError),
    /// The store failed while the revision was resolved.
    Revision(StoreError),
    /// The update did not apply.
    Transaction(TransactionError),
}

/// The status of a reference that was moved or made.
pub const EXIT_DONE: u8 = 0;

/// The status where a working copy has the reference checked out.
pub const EXIT_CHECKED_OUT: u8 = 1;

/// The status where the reference to make exists.
pub const EXIT_EXISTS: u8 = 2;

/// The status where a name means several references.
pub const EXIT_AMBIGUOUS: u8 = 3;

/// The status of every other failure.
pub const EXIT_FAILURE: u8 = 4;

/// The status with which the process ends. An update that finds the
/// reference in existence where it was to make it counts as a reference that
/// exists.
pub open spec fn status_of(outcome: Result<Moved, Refusal>) -> u8 {
    match outcome {
        Ok(_) => EXIT_DONE,
        Err(Refusal::CheckedOut { .. }) => EXIT_CHECKED_OUT,
        Err(Refusal::AlreadyExists { .. }) => EXIT_EXISTS,
        Err(Refusal::AmbiguousVictim { .. }) => EXIT_AMBIGUOUS,
        Err(Refusal::AmbiguousTarget { .. }) => EXIT_AMBIGUOUS,
        Err(Refusal::Transaction(failure)) => if failure.kind == FailureKind::PreconditionFailed
            && failure.old is None {
            EXIT_EXISTS
        } else {
            EXIT_FAILURE
        },
        Err(Refusal::Store(_)) => EXIT_FAILURE,
        Err(Refusal::Revision(_)) => EXIT_FAILURE,
    }
}

/// The status with which the process ends: 0 where the reference was moved
/// or made, 1 where a working copy holds it, 2 where the reference to make
/// exists, 3 where a name is ambiguous, and 4 for every other failure.
pub fn exit_code(outcome: &Result<Moved, Refusal>) -> (status: u8)
    ensures
        status == status_of(*outcome),
        status == EXIT_DONE <==> outcome is Ok,
{
    match outcome {
        Ok(_) => EXIT_DONE,
        Err(Refusal::CheckedOut { .. }) => EXIT_CHECKED_OUT,
        Err(Refusal::AlreadyExists { .. }) => EXIT_EXISTS,
        Err(Refusal::AmbiguousVictim { .. }) => EXIT_AMBIGUOUS,
        Err(Refusal::AmbiguousTarget { .. }) => EXIT_AMBIGUOUS,
        Err(Refusal::Transaction(failure)) => {
            let raced = match failure.kind {
                FailureKind::PreconditionFailed => failure.old.is_none(),
                _ => false,
            };
            if raced {
                EXIT_EXISTS
            } else {
                EXIT_FAILURE
            }
        },
        Err(Refusal::Store(_)) => EXIT_FAILURE,
        Err(Refusal::Revision(_)) => EXIT_FAILURE,
    }
}

/// Whether `after` holds all of `before`, in order, at its start: notes are
/// added and none is taken away.
pub open spec fn extends(before: Seq<StoreError>, after: Seq<StoreError>) -> bool {
    before.len() <= after.len() && after.subrange(0, before.len() as int) =~= before
}

/// Plans the making of a reference, given what a lookup of the full name
/// to be made found: the full name of the reference found, with the id at
/// its end where that could be told. The making is refused where the
/// reference found is the very one to be made; a lookup that found another
/// reference, or none, lets the reference be planned under the prefix of its
/// kind.
pub fn plan_from(kind: NewRefKind, from: &Vec<u8>, existing: Option<(Vec<u8>, Option<Vec<u8>>)>) -> (planned:
    Result<NewVictim, Refusal>)
    ensures
        match existing {
            Some(found) if found.0@ == prefix_of(kind) + from@ => planned matches Err(
                Refusal::AlreadyExists { name, id },
            ) && name@ == found.0@ && opt_bytes(id) == opt_bytes(found.1),
            _ => planned matches Ok(made) && made.revspec@ == from@ && made.name@ == prefix_of(
                kind,
            ) + from@ && made.short@ == from@,
        },
{
    let made = NewVictim::new(kind, copy_bytes(from));
    match existing {
        Some((name, id)) => {
            if bytes_eq(&name, &made.name) {
                Err(Refusal::AlreadyExists { name, id })
            } else {
                Ok(made)
            }
        },
        None => Ok(made),
    }
}

/// Plans the making of a reference: looks up the full name to be made and
/// plans from what was found, as [`plan_from`] says. Where the store cannot
/// tell whether the reference exists, that is noted in `passed_over` and the
/// update's own precondition is left to decide; where it cannot tell the id
/// of one that does, that is noted too.
pub fn plan_new(
    repo: &gix::Repository,
    kind: NewRefKind,
    from: &Vec<u8>,
    passed_over: &mut Vec<StoreError>,
) -> (planned: Result<NewVictim, Refusal>)
    ensures
        planned matches Ok(made) ==> {
            &&& made.revspec@ == from@
            &&& made.name@ == prefix_of(kind) + from@
            &&& made.short@ == from@
        },
        planned matches Err(refusal) ==> (refusal matches Refusal::AlreadyExists { name, .. }
            && name@ == prefix_of(kind) + from@),
        extends(old(passed_over)@, final(passed_over)@),
{
    let wanted = NewVictim::new(kind, copy_bytes(from)).name;
    let existing = match try_find_reference(repo, &wanted) {
        Ok(Some(existing)) => {
            let name = snapshot_of(&existing).name;
            let id = match peeled_id(&existing) {
                Ok(id) => Some(id),
                Err(cause) => {
                    passed_over.push(
                        StoreError {
                            operation: Operation::PeelReference,
                            subject: copy_bytes(&name),
                            detail: describe(&cause),
                        },
                    );
                    None
                },
            };
            Some((name, id))
        },
        Ok(None) => None,
        Err(cause) => {
            passed_over.push(
                StoreError {
                    operation: Operation::FindReference,
                    subject: wanted,
                    detail: describe(&cause),
                },
            );
            None
        },
    };
    plan_from(kind, from, existing)
}

/// The refusal that the guard gives for what it saw: none where no working
/// copy has `victim` checked out; else the one that names the reference and
/// the directory of the first working copy that has.
pub fn blocked_by(checkouts: &Vec<Checkout>, victim: &RefSnapshot) -> (refusal: Option<Refusal>)
    ensures
        match refusal {
            None => is_first_conflict(checkout_values(checkouts@), victim@, None),
            Some(Refusal::CheckedOut { name, short, dir }) => {
                &&& name@ == victim.name@
                &&& short@ == victim.short@
                &&& exists|at: usize|
                    #[trigger] is_first_conflict(checkout_values(checkouts@), victim@, Some(at))
                        && dir == checkouts[at as int].dir
            },
            Some(_) => false,
        },
{
    match find_conflict(checkouts, victim) {
        Some(at) => {
            assert(checkout_values(checkouts@)[at as int] == checkouts[at as int]@);
            Some(
                Refusal::CheckedOut {
                    name: copy_bytes(&victim.name),
                    short: copy_bytes(&victim.short),
                    dir: checkouts[at].dir.clone(),
                },
            )
        },
        None => None,
    }
}

/// The refusal that the resolver's answer calls for: the ambiguity as it
/// was found where the name means several references, and none where it
/// means one.
pub fn refusal_of(found: MaybeAmbigRef) -> (refusal: Option<Refusal>)
    ensures
        match found {
            MaybeAmbigRef::Ambiguous { requested, possible } => refusal == Some(
                Refusal::AmbiguousVictim { requested, possible },
            ),
            MaybeAmbigRef::NotAmbiguous(_) => refusal is None,
        },
{
    match found {
        MaybeAmbigRef::Ambiguous { requested, possible } => Some(
            Refusal::AmbiguousVictim { requested, possible },
        ),
        MaybeAmbigRef::NotAmbiguous(_) => None,
    }
}

/// Resolves the reference to move: it must exist, mean one reference only
/// as [`refusal_of`] says and, unless `allow_worktree` is set, be checked
/// out nowhere, as [`blocked_by`] says. What the guard passed over is noted in
/// `passed_over`.
pub fn resolve_known(
    repo: &gix::Repository,
    from: &Vec<u8>,
    allow_worktree: bool,
    passed_over: &mut Vec<StoreError>,
) -> (resolved: Result<KnownVictim, Refusal>)
    ensures
        resolved matches Ok(known) ==> {
            &&& known.revspec@ == from@
            &&& valid_full_name(known.name@)
            &&& holds_object_id(known.resolved_id@)
        },
        resolved matches Err(refusal) ==> {
            &&& !(refusal is AlreadyExists)
            &&& !(refusal is AmbiguousTarget)
            &&& !(refusal is Revision)
            &&& !(refusal is Transaction)
            &&& allow_worktree ==> !(refusal is CheckedOut)
            &&& refusal matches Refusal::AmbiguousVictim { requested, possible } ==> requested@
                == from@ && possible.len() >= 2
        },
        extends(old(passed_over)@, final(passed_over)@),
        allow_worktree ==> final(passed_over)@ == old(passed_over)@,
{
    let reference = match find_reference(repo, from) {
        Ok(reference) => reference,
        Err(cause) => {
            return Err(
                Refusal::Store(
                    StoreError {
                        operation: Operation::FindReference,
                        subject: copy_bytes(from),
                        detail: describe(&cause),
                    },
                ),
            );
        },
    };
    match repo.find_ambiguous_references(from) {
        Ok(found) => match refusal_of(found) {
            Some(refusal) => {
                return Err(refusal);
            },
            None => {},
        },
        Err(failure) => {
            return Err(Refusal::Store(failure));
        },
    }
    if !allow_worktree {
        let snapshot = snapshot_of(&reference);
        let mut scan = check_worktrees(repo, &snapshot);
        passed_over.append(&mut scan.skipped);
        match blocked_by(&scan.checkouts, &snapshot) {
            Some(refusal) => {
                return Err(refusal);
            },
            None => {},
        }
    }
    match KnownVictim::from(copy_bytes(from), &reference) {
        Ok(known) => Ok(known),
        Err(failure) => Err(Refusal::Store(failure)),
    }
}

/// Carries an invocation out: moves the reference, or makes it, so that it
/// points at the revision; or changes nothing and says why. What was passed
/// over on the way is noted in `passed_over`.
///
/// Whatever the store answers: a reference is made exactly where a namespace
/// was given, and then under the name that the namespace and the request
/// spell; the guard refuses only a move, and never one that was allowed to
/// pass it, so that such an invocation never ends with the guard's status; a
/// reference that exists is refused only where one was to be made or the
/// update found it so; and a move is never refused for its name.
pub fn execute(repo: &gix::Repository, invocation: &Invocation, passed_over: &mut Vec<StoreError>) -> (outcome:
    Result<Moved, Refusal>)
    ensures
        outcome matches Ok(moved) ==> {
            &&& moved.target.revspec@ == invocation.to@
            &&& match invocation.new {
                Some(kind) => moved.victim matches Victim::New(made) && made.name@ == prefix_of(kind)
                    + invocation.from@,
                None => moved.victim matches Victim::Known(known) && known.revspec@
                    == invocation.from@ && valid_full_name(known.name@),
            }
        },
        outcome matches Err(refusal) ==> {
            &&& refusal is CheckedOut ==> invocation.new is None && !invocation.allow_worktree
            &&& refusal matches Refusal::AlreadyExists { name, .. } ==> (invocation.new matches Some(
                kind,
            ) && name@ == prefix_of(kind) + invocation.from@)
            &&& refusal matches Refusal::AmbiguousVictim { requested, possible } ==> {
                &&& invocation.new is None
                &&& requested@ == invocation.from@
                &&& possible.len() >= 2
            }
            &&& refusal matches Refusal::AmbiguousTarget { revspec, .. } ==> revspec@
                == invocation.to@
            &&& refusal matches Refusal::Transaction(failure) ==> match invocation.new {
                Some(kind) => failure.old is None && failure.name@ == prefix_of(kind)
                    + invocation.from@,
                None => failure.old is Some && failure.kind != FailureKind::InvalidName,
            }
        },
        invocation.allow_worktree || invocation.new is Some ==> status_of(outcome)
            != EXIT_CHECKED_OUT,
        extends(old(passed_over)@, final(passed_over)@),
{
    let victim = match invocation.new {
        Some(kind) => match plan_new(repo, kind, &invocation.from, passed_over) {
            Ok(made) => Victim::New(made),
            Err(refusal) => {
                return Err(refusal);
            },
        },
        None => match resolve_known(
            repo,
            &invocation.from,
            invocation.allow_worktree,
            passed_over,
        ) {
            Ok(known) => Victim::Known(known),
            Err(refusal) => {
                return Err(refusal);
            },
        },
    };
    let target = match TargetRev::from(repo, copy_bytes(&invocation.to)) {
        Ok(target) => target,
        Err(TargetFailure::Ambiguous { requested, possible }) => {
            return Err(
                Refusal::AmbiguousTarget { requested, revspec: copy_bytes(&invocation.to), possible },
            );
        },
        Err(TargetFailure::Store(failure)) => {
            return Err(Refusal::Revision(failure));
        },
    };
    let request = TransactionRequest::for_victim(&victim, &target);
    match commit(repo, &request) {
        Ok(()) => Ok(Moved { victim, target }),
        Err(failure) => Err(Refusal::Transaction(failure)),
    }
}

} // verus!
