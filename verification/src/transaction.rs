//! The update itself: one reference, set to one value, under a
//! precondition, with one line written to its log.
//!
//! The store applies the value and the log line as one step, and only if the
//! reference is in the state that the request expects. That precondition,
//! not anything read earlier, is what keeps an update safe against a store
//! that changed in the meantime. Nothing is tried twice.

use vstd::prelude::*;
use crate::bytes::{append_bytes, copy_bytes, text, text_bytes};
use crate::hex::{hex_of, to_hex};
use crate::model::opt_bytes;
use crate::store::{
    describe, edit_reference, full_name, holds_object_id, is_conflict, is_not_found, object_id,
    valid_full_name,
};
use crate::target::TargetRev;
use crate::victim::{KnownVictim, NewVictim, Victim};

verus! {

/// The state in which the reference must be for the update to apply.
#[derive(Debug, Clone)]
pub enum Expected {
    /// The reference does not exist: the update makes it.
    MustNotExist,
    /// The reference exists and holds this id.
    MustExistAndMatch(Vec<u8>),
}

impl Expected {
    /// The id that the reference must hold, if it must exist.
    pub open spec fn previous(self) -> Option<Seq<u8>> {
        match self {
            Expected::MustNotExist => None,
            Expected::MustExistAndMatch(id) => Some(id@),
        }
    }
}

/// One update of one reference.
#[derive(Debug, Clone)]
pub struct TransactionRequest {
    /// The full name of the reference.
    pub name: Vec<u8>,
    /// The state in which the reference must be.
    pub expected: Expected,
    /// The id that the reference is set to.
    pub new_value: Vec<u8>,
    /// The line for the log of the reference.
    pub message: Vec<u8>,
}

/// The mathematical value of a [`TransactionRequest`].
pub struct RequestValue {
    pub name: Seq<u8>,
    pub previous: Option<Seq<u8>>,
    pub new_value: Seq<u8>,
    pub message: Seq<u8>,
}

impl View for TransactionRequest {
    type V = RequestValue;

    open spec fn view(&self) -> RequestValue {
        RequestValue {
            name: self.name@,
            previous: self.expected.previous(),
            new_value: self.new_value@,
            message: self.message@,
        }
    }
}

/// The log line of an update: the tool, the reference, and the ids it is
/// moved from and to, in hexadecimal.
pub open spec fn update_message(name: Seq<u8>, old: Seq<u8>, new: Seq<u8>) -> Seq<u8> {
    text("git-point: updating ") + name + text(" from ") + hex_of(old) + text(" to ") + hex_of(new)
}

/// The log line of a creation: the tool, the reference, and the id it is
/// made from, in hexadecimal.
pub open spec fn creation_message(name: Seq<u8>, new: Seq<u8>) -> Seq<u8> {
    text("git-point: created ") + name + text(" from ") + hex_of(new)
}

/// The request that moves or makes `victim` so that it points at `target`.
pub open spec fn request_for(victim: Victim, target: TargetRev) -> RequestValue {
    match victim {
        Victim::Known(known) => RequestValue {
            name: known.name@,
            previous: Some(known.resolved_id@),
            new_value: target.resolved_id@,
            message: update_message(known.name@, known.resolved_id@, target.resolved_id@),
        },
        Victim::New(new) => RequestValue {
            name: new.name@,
            previous: None,
            new_value: target.resolved_id@,
            message: creation_message(new.name@, target.resolved_id@),
        },
    }
}

/// A move is a compare-and-swap: its request names the reference, expects
/// exactly the id that the reference was resolved to, sets exactly the id of
/// the target, and logs one line that tells both, each in full: two digits
/// to the byte. Whether the reference still holds the expected id is for the
/// store to find.
pub proof fn law_move_expects_the_resolved_id(known: KnownVictim, target: TargetRev)
    ensures
        request_for(Victim::Known(known), target) == (RequestValue {
            name: known.name@,
            previous: Some(known.resolved_id@),
            new_value: target.resolved_id@,
            message: update_message(known.name@, known.resolved_id@, target.resolved_id@),
        }),
        hex_of(known.resolved_id@).len() == 2 * known.resolved_id@.len(),
        hex_of(target.resolved_id@).len() == 2 * target.resolved_id@.len(),
{
}

/// A move of a reference with a valid full name, from an object id to an
/// object id, is never refused before the store is asked.
pub proof fn law_move_goes_to_the_store(known: KnownVictim, target: TargetRev)
    requires
        valid_full_name(known.name@),
        holds_object_id(known.resolved_id@),
        holds_object_id(target.resolved_id@),
    ensures
        refused_unasked(request_for(Victim::Known(known), target)) is None,
{
}

/// A creation expects that the reference does not exist: its request never
/// carries an id to compare with, sets exactly the id of the target, and
/// logs one line that tells it.
pub proof fn law_creation_expects_absence(made: NewVictim, target: TargetRev)
    ensures
        request_for(Victim::New(made), target) == (RequestValue {
            name: made.name@,
            previous: None,
            new_value: target.resolved_id@,
            message: creation_message(made.name@, target.resolved_id@),
        }),
{
}

impl TransactionRequest {
    /// The request that moves or makes `victim` so that it points at
    /// `target`: a reference that exists must still hold the id it was
    /// resolved to, and one that is made must not exist.
    pub fn for_victim(victim: &Victim, target: &TargetRev) -> (request: TransactionRequest)
        ensures
            request@ == request_for(*victim, *target),
    {
        match victim {
            Victim::Known(known) => {
                let mut message = text_bytes("git-point: updating ");
                append_bytes(&mut message, &known.name);
                append_bytes(&mut message, &text_bytes(" from "));
                append_bytes(&mut message, &to_hex(&known.resolved_id));
                append_bytes(&mut message, &text_bytes(" to "));
                append_bytes(&mut message, &to_hex(&target.resolved_id));
                TransactionRequest {
                    name: copy_bytes(&known.name),
                    expected: Expected::MustExistAndMatch(copy_bytes(&known.resolved_id)),
                    new_value: copy_bytes(&target.resolved_id),
                    message,
                }
            },
            Victim::New(new) => {
                let mut message = text_bytes("git-point: created ");
                append_bytes(&mut message, &new.name);
                append_bytes(&mut message, &text_bytes(" from "));
                append_bytes(&mut message, &to_hex(&target.resolved_id));
                TransactionRequest {
                    name: copy_bytes(&new.name),
                    expected: Expected::MustNotExist,
                    new_value: copy_bytes(&target.resolved_id),
                    message,
                }
            },
        }
    }
}

/// What is written when a reference is edited.
#[derive(Debug, Clone, Copy, PartialEq, Eq, Structural)]
pub enum LogMode {
    /// The value of the reference and a line in its log, as one step.
    AndReference,
    /// A line in the log and nothing else.
    Only,
}

/// One edit as it is handed to the store, in plain values.
#[derive(Debug, Clone)]
pub struct StoreEdit {
    /// The full name of the reference.
    pub name: Vec<u8>,
    /// The id that the reference must hold; none where it must not exist.
    pub expected: Option<Vec<u8>>,
    /// The id that the reference is set to.
    pub new_value: Vec<u8>,
    /// The line for the log.
    pub message: Vec<u8>,
    /// What is written.
    pub mode: LogMode,
    /// Whether a log is made where the reference has none.
    pub always_log: bool,
    /// Whether a symbolic reference is followed, so that the reference at
    /// its end is set.
    pub follow_symbolic: bool,
}

/// The edit that carries `request` out: the request's name, expected state,
/// new value and log line as they are; the value written together with the
/// log line, to a log that is made where there is none; and the named
/// reference itself set, also where it is symbolic.
pub fn edit_of(request: &TransactionRequest) -> (edit: StoreEdit)
    ensures
        edit.name@ == request.name@,
        opt_bytes(edit.expected) == request@.previous,
        edit.new_value@ == request.new_value@,
        edit.message@ == request.message@,
        edit.mode == LogMode::AndReference,
        edit.always_log,
        !edit.follow_symbolic,
{
    let expected = match &request.expected {
        Expected::MustNotExist => None,
        Expected::MustExistAndMatch(id) => Some(copy_bytes(id)),
    };
    StoreEdit {
        name: copy_bytes(&request.name),
        expected,
        new_value: copy_bytes(&request.new_value),
        message: copy_bytes(&request.message),
        mode: LogMode::AndReference,
        always_log: true,
        follow_symbolic: false,
    }
}

/// Why an update did not apply.
#[derive(Debug, Clone, Copy, PartialEq, Eq, Structural)]
pub enum FailureKind {
    /// The reference was not in the expected state: it changed or vanished
    /// since it was resolved, or it exists where it was to be made.
    PreconditionFailed,
    /// The name is no valid full name of a reference.
    InvalidName,
    /// The store could not carry the update out.
    StoreUnavailable,
}

/// An update that did not apply, with what was attempted.
#[derive(Debug, Clone)]
pub struct TransactionError {
    pub kind: FailureKind,
    /// The full name of the reference.
    pub name: Vec<u8>,
    /// The id that the reference was expected to hold, if it was to exist.
    pub old: Option<Vec<u8>>,
    /// The id that the reference was to be set to.
    pub new: Vec<u8>,
    /// The store's own words, where it said any.
    pub detail: String,
}

impl TransactionError {
    /// Whether the failure reports what `request` attempted.
    pub open spec fn reports(self, request: RequestValue) -> bool {
        self.name@ == request.name && opt_bytes(self.old) == request.previous && self.new@
            == request.new_value
    }
}

/// The kind of a failure that the store reported for an update: a
/// precondition that did not hold where the store speaks of a conflict or
/// of something missing, and a store that is unavailable otherwise.
pub fn failure_kind(conflict: bool, missing: bool) -> (kind: FailureKind)
    ensures
        kind == if conflict || missing {
            FailureKind::PreconditionFailed
        } else {
            FailureKind::StoreUnavailable
        },
{
    if conflict || missing {
        FailureKind::PreconditionFailed
    } else {
        FailureKind::StoreUnavailable
    }
}

/// The failure that a request meets before the store is asked, if it meets
/// one: a name that is no valid full name is refused as such; else an
/// expected id that is no object id fails the precondition, since no
/// reference can hold it; else a new id that is no object id is one that the
/// store cannot take.
pub open spec fn refused_unasked(request: RequestValue) -> Option<FailureKind> {
    if !valid_full_name(request.name) {
        Some(FailureKind::InvalidName)
    } else if request.previous matches Some(old) && !holds_object_id(old) {
        Some(FailureKind::PreconditionFailed)
    } else if !holds_object_id(request.new_value) {
        Some(FailureKind::StoreUnavailable)
    } else {
        None
    }
}

/// The failure of `kind` for `request`.
fn failure_of(request: &TransactionRequest, kind: FailureKind, detail: String) -> (failure:
    TransactionError)
    ensures
        failure.kind == kind,
        failure.detail == detail,
        failure.reports(request@),
{
    let old = match &request.expected {
        Expected::MustNotExist => None,
        Expected::MustExistAndMatch(id) => Some(copy_bytes(id)),
    };
    TransactionError {
        kind,
        name: copy_bytes(&request.name),
        old,
        new: copy_bytes(&request.new_value),
        detail,
    }
}

/// Applies `request` to the store as one step, or not at all.
///
/// A request that [`refused_unasked`] refuses fails with that kind, and the
/// store is not asked; only a name that is no valid full name is refused as
/// invalid. Every other request is handed to the store as the edit that
/// [`edit_of`] makes of it, and what the store decides is told by
/// [`failure_kind`]. Every failure reports what was attempted.
pub fn commit(repo: &gix::Repository, request: &TransactionRequest) -> (committed: Result<
    (),
    TransactionError,
>)
    ensures
        refused_unasked(request@) matches Some(kind) ==> (committed matches Err(failure)
            && failure.kind == kind),
        committed matches Err(failure) ==> {
            &&& failure.reports(request@)
            &&& failure.kind == FailureKind::InvalidName <==> !valid_full_name(request.name@)
        },
{
    if full_name(&request.name).is_none() {
        return Err(failure_of(request, FailureKind::InvalidName, String::new()));
    }
    let expected_holds = match &request.expected {
        Expected::MustNotExist => true,
        Expected::MustExistAndMatch(old) => object_id(old).is_some(),
    };
    if !expected_holds {
        return Err(failure_of(request, FailureKind::PreconditionFailed, String::new()));
    }
    if object_id(&request.new_value).is_none() {
        return Err(failure_of(request, FailureKind::StoreUnavailable, String::new()));
    }
    let edit = edit_of(request);
    match edit_reference(repo, &edit) {
        Ok(()) => Ok(()),
        Err(cause) => {
            let kind = failure_kind(is_conflict(&cause), is_not_found(&cause));
            Err(failure_of(request, kind, describe(&cause)))
        },
    }
}

} // verus!
