//! The reference that is moved or made, and the revision it is pointed at.

use vstd::prelude::*;
use crate::bytes::{append_bytes, copy_bytes, text, text_bytes};
use crate::error::{Operation, StoreError};
use crate::hex::{hex_of, to_hex};
use crate::model::{NewRefKind, RefSnapshot};
use crate::store::{
    category_prefix, category_prefix_of, describe, find_commit, first_line, first_line_feed,
    first_line_of, full_name, holds_object_id, message_raw, object_id, peeled_id, repository_of, short_form,
    snapshot_of, valid_full_name, RefCategory, LINE_FEED,
};

verus! {

/// The namespace prefix of each kind of new reference.
pub open spec fn prefix_of(kind: NewRefKind) -> Seq<u8> {
    match kind {
        NewRefKind::Tag => category_prefix_of(RefCategory::Tag),
        NewRefKind::Branch => category_prefix_of(RefCategory::LocalBranch),
        NewRefKind::RemoteBranch => category_prefix_of(RefCategory::RemoteBranch),
        NewRefKind::Raw => Seq::empty(),
    }
}

impl NewRefKind {
    /// The prefix that makes a full name of a short one.
    pub fn to_prefix(self) -> (prefix: Vec<u8>)
        ensures
            prefix@ == prefix_of(self),
    {
        match self {
            NewRefKind::Tag => category_prefix(RefCategory::Tag),
            NewRefKind::Branch => category_prefix(RefCategory::LocalBranch),
            NewRefKind::RemoteBranch => category_prefix(RefCategory::RemoteBranch),
            NewRefKind::Raw => Vec::new(),
        }
    }
}

/// The one-line summary of a commit message: its first line, or a
/// placeholder for a message without any line.
pub open spec fn summary_of(message: Seq<u8>) -> Seq<u8> {
    match first_line_of(message) {
        Some(line) => line,
        None => text("<empty msg>"),
    }
}

/// The first line feed of a text stands within the text or at its end, and
/// no line feed stands before it.
pub proof fn law_first_line_feed_is_first(message: Seq<u8>)
    ensures
        0 <= first_line_feed(message) <= message.len(),
        first_line_feed(message) < message.len() ==> message[first_line_feed(message)]
            == LINE_FEED,
        forall|i: int| 0 <= i < first_line_feed(message) ==> message[i] != LINE_FEED,
    decreases message.len(),
{
    if message.len() > 0 && message[0] != LINE_FEED {
        let rest = message.skip(1);
        law_first_line_feed_is_first(rest);
        assert forall|i: int| 0 <= i < first_line_feed(message) implies message[i] != LINE_FEED by {
            if i > 0 {
                assert(rest[i - 1] == message[i]);
            }
        }
        if first_line_feed(message) < message.len() {
            assert(rest[first_line_feed(rest)] == message[first_line_feed(message)]);
        }
    }
}

/// The first line of a message is a prefix of the message and holds no line
/// feed: a summary is one line.
pub proof fn law_first_line_is_one_line(message: Seq<u8>)
    ensures
        first_line_of(message) matches Some(line) ==> {
            &&& line.len() <= message.len()
            &&& line == message.subrange(0, line.len() as int)
            &&& forall|i: int| 0 <= i < line.len() ==> line[i] != LINE_FEED
        },
        first_line_of(message) is None <==> message.len() == 0,
{
    law_first_line_feed_is_first(message);
}

/// The one-line summary of a commit message.
pub fn summary_line(message: &Vec<u8>) -> (summary: Vec<u8>)
    ensures
        summary@ == summary_of(message@),
{
    match first_line(message) {
        Some(line) => line,
        None => text_bytes("<empty msg>"),
    }
}

/// A reference that does not exist yet and is to be made.
#[derive(Debug, Clone, PartialEq, Eq, Hash)]
pub struct NewVictim {
    /// The name as it was asked for.
    pub revspec: Vec<u8>,
    /// The full name of the reference, such as `refs/heads/main`.
    pub name: Vec<u8>,
    /// The name without its namespace prefix.
    pub short: Vec<u8>,
}

impl NewVictim {
    /// The reference of the given kind that goes by `revspec`: its full
    /// name is the prefix of the kind followed by `revspec`.
    pub fn new(kind: NewRefKind, revspec: Vec<u8>) -> (made: NewVictim)
        ensures
            made.revspec@ == revspec@,
            made.name@ == prefix_of(kind) + revspec@,
            made.short@ == revspec@,
    {
        let mut name = kind.to_prefix();
        append_bytes(&mut name, &revspec);
        let short = copy_bytes(&revspec);
        NewVictim { revspec, name, short }
    }
}

/// A reference that exists and is to be moved, as it stood when it was
/// resolved. If the store changes afterwards, the precondition of the update
/// decides, not this value.
#[derive(Debug, Clone, PartialEq, Eq, Hash)]
pub struct KnownVictim {
    /// The name as it was asked for.
    pub revspec: Vec<u8>,
    /// The full name of the reference, such as `refs/heads/main`.
    pub name: Vec<u8>,
    /// The short form of the name, such as `main`.
    pub short: Vec<u8>,
    /// The commit that the reference points to, all indirections followed.
    pub resolved_id: Vec<u8>,
    /// The first line of that commit's message.
    pub summary: Vec<u8>,
}

/// The mathematical value of a [`KnownVictim`].
pub struct KnownVictimValue {
    pub revspec: Seq<u8>,
    pub name: Seq<u8>,
    pub short: Seq<u8>,
    pub resolved_id: Seq<u8>,
    pub summary: Seq<u8>,
}

impl View for KnownVictim {
    type V = KnownVictimValue;

    open spec fn view(&self) -> KnownVictimValue {
        KnownVictimValue {
            revspec: self.revspec@,
            name: self.name@,
            short: self.short@,
            resolved_id: self.resolved_id@,
            summary: self.summary@,
        }
    }
}

/// Reads the message of the commit that `id` names and gives its summary.
pub(crate) fn commit_summary(repo: &gix::Repository, id: &Vec<u8>) -> (summary: Result<
    Vec<u8>,
    StoreError,
>)
    ensures
        summary matches Ok(line) ==> exists|message: Seq<u8>| line@ == #[trigger] summary_of(message),
        summary matches Err(failure) ==> {
            &&& failure.subject@ == hex_of(id@)
            &&& failure.operation == Operation::FindCommit || failure.operation
                == Operation::ReadMessage
        },
{
    let object = match object_id(id) {
        Some(object) => object,
        None => {
            return Err(
                StoreError {
                    operation: Operation::FindCommit,
                    subject: to_hex(id),
                    detail: String::new(),
                },
            );
        },
    };
    let commit = match find_commit(repo, object) {
        Ok(commit) => commit,
        Err(cause) => {
            return Err(
                StoreError {
                    operation: Operation::FindCommit,
                    subject: to_hex(id),
                    detail: describe(&cause),
                },
            );
        },
    };
    let message = match message_raw(&commit) {
        Ok(message) => message,
        Err(cause) => {
            return Err(
                StoreError {
                    operation: Operation::ReadMessage,
                    subject: to_hex(id),
                    detail: describe(&cause),
                },
            );
        },
    };
    let line = summary_line(&message);
    assert(line@ == summary_of(message@));
    Ok(line)
}

impl KnownVictim {
    /// Puts together what was read of a reference: its snapshot, the commit
    /// at its end and that commit's message.
    pub fn assemble(revspec: Vec<u8>, reference: &RefSnapshot, resolved_id: Vec<u8>, summary: Vec<u8>) -> (victim:
        KnownVictim)
        ensures
            victim@ == (KnownVictimValue {
                revspec: revspec@,
                name: reference.name@,
                short: reference.short@,
                resolved_id: resolved_id@,
                summary: summary@,
            }),
    {
        KnownVictim {
            revspec,
            name: copy_bytes(&reference.name),
            short: copy_bytes(&reference.short),
            resolved_id,
            summary,
        }
    }

    /// Resolves a reference to the commit at its end and reads that commit's
    /// summary.
    ///
    /// Whatever the store answers, a result keeps `revspec`, has a valid full
    /// name, carries the short form that the store gives that name, holds an
    /// object id, and its summary is the summary of some message. A failure says which step
    /// failed.
    pub fn from(revspec: Vec<u8>, reference: &gix::Reference<'_>) -> (victim: Result<KnownVictim, StoreError>)
        ensures
            victim matches Ok(known) ==> {
                &&& known.revspec@ == revspec@
                &&& valid_full_name(known.name@)
                &&& known.short@ == short_form(known.name@)
                &&& holds_object_id(known.resolved_id@)
                &&& exists|message: Seq<u8>| known.summary@ == #[trigger] summary_of(message)
            },
            victim matches Err(failure) ==> {
                ||| failure.operation == Operation::ValidateName
                ||| failure.operation == Operation::PeelReference
                ||| failure.operation == Operation::FindCommit
                ||| failure.operation == Operation::ReadMessage
            },
    {
        let snapshot = snapshot_of(reference);
        if full_name(&snapshot.name).is_none() {
            return Err(
                StoreError {
                    operation: Operation::ValidateName,
                    subject: snapshot.name,
                    detail: String::new(),
                },
            );
        }
        let resolved_id = match peeled_id(reference) {
            Ok(id) => id,
            Err(cause) => {
                return Err(
                    StoreError {
                        operation: Operation::PeelReference,
                        subject: snapshot.name,
                        detail: describe(&cause),
                    },
                );
            },
        };
        let summary = match commit_summary(repository_of(reference), &resolved_id) {
            Ok(summary) => summary,
            Err(failure) => {
                return Err(failure);
            },
        };
        Ok(KnownVictim::assemble(revspec, &snapshot, resolved_id, summary))
    }
}

/// The reference that an invocation works on.
#[derive(Debug, Clone, PartialEq, Eq, Hash)]
pub enum Victim {
    /// A reference that exists and is moved.
    Known(KnownVictim),
    /// A reference that is made.
    New(NewVictim),
}

impl Victim {
    /// The full name of the reference.
    pub fn name_bstr(&self) -> (name: &Vec<u8>)
        ensures
            name@ == self.full_name(),
    {
        match self {
            Victim::Known(victim) => &victim.name,
            Victim::New(new) => &new.name,
        }
    }

    /// The full name of the reference.
    pub open spec fn full_name(&self) -> Seq<u8> {
        match self {
            Victim::Known(victim) => victim.name@,
            Victim::New(new) => new.name@,
        }
    }
}

} // verus!
