//! Keeping a reference that is checked out from being moved.
//!
//! Moving a reference that a working copy has checked out touches no file,
//! but leaves that working copy out of step with its branch. The guard
//! looks at the checkout pointer of every working copy and names the first
//! that holds the reference. Nothing is locked: the store may change between
//! this look and the update, and the update's own precondition is what
//! keeps it safe.

use vstd::prelude::*;
use crate::bytes::bytes_eq;
use crate::error::{Operation, StoreError};
use crate::model::{same_reference, RefSnapshot, RefTarget, SnapshotValue};
use crate::store::{
    describe, head_ref, open_worktree, short_form, snapshot_of, workdir, worktrees,
};

verus! {

/// A working copy and the reference that it has checked out.
#[derive(Debug, Clone)]
pub struct Checkout {
    /// The directory of the working copy.
    pub dir: String,
    /// The reference that its checkout pointer names; none where the pointer
    /// is detached or names no reference yet.
    pub head: Option<RefSnapshot>,
}

/// The mathematical value of a [`Checkout`].
pub struct CheckoutValue {
    pub dir: Seq<char>,
    pub head: Option<SnapshotValue>,
}

impl View for Checkout {
    type V = CheckoutValue;

    open spec fn view(&self) -> CheckoutValue {
        CheckoutValue {
            dir: self.dir@,
            head: match self.head {
                Some(head) => Some(head@),
                None => None,
            },
        }
    }
}

/// The values of a vector of checkouts, in order.
pub open spec fn checkout_values(checkouts: Seq<Checkout>) -> Seq<CheckoutValue> {
    checkouts.map_values(|c: Checkout| c@)
}

/// Whether a working copy has `victim` checked out.
pub open spec fn holds(checkout: CheckoutValue, victim: SnapshotValue) -> bool {
    checkout.head matches Some(head) && same_reference(head, victim)
}

/// Whether `found` is the first working copy of `checkouts` that has `victim`
/// checked out, or none where no working copy has.
pub open spec fn is_first_conflict(
    checkouts: Seq<CheckoutValue>,
    victim: SnapshotValue,
    found: Option<usize>,
) -> bool {
    match found {
        Some(at) => {
            &&& at < checkouts.len()
            &&& holds(checkouts[at as int], victim)
            &&& forall|k: int| 0 <= k < at ==> !holds(#[trigger] checkouts[k], victim)
        },
        None => forall|k: int| 0 <= k < checkouts.len() ==> !holds(#[trigger] checkouts[k], victim),
    }
}

/// There is one answer to which working copy holds the reference first.
pub proof fn law_first_conflict_is_unique(
    checkouts: Seq<CheckoutValue>,
    victim: SnapshotValue,
    one: Option<usize>,
    other: Option<usize>,
)
    requires
        is_first_conflict(checkouts, victim, one),
        is_first_conflict(checkouts, victim, other),
    ensures
        one == other,
{
    match (one, other) {
        (Some(a), Some(b)) => {
            if a < b {
                assert(!holds(checkouts[a as int], victim));
            } else if b < a {
                assert(!holds(checkouts[b as int], victim));
            }
        },
        (Some(a), None) => {
            assert(!holds(checkouts[a as int], victim));
        },
        (None, Some(b)) => {
            assert(!holds(checkouts[b as int], victim));
        },
        (None, None) => {},
    }
}

/// Whether two targets are the same.
fn same_target(a: &RefTarget, b: &RefTarget) -> (same: bool)
    ensures
        same == (a@ == b@),
{
    match (a, b) {
        (RefTarget::Object(x), RefTarget::Object(y)) => bytes_eq(x, y),
        (RefTarget::Symbolic(x), RefTarget::Symbolic(y)) => bytes_eq(x, y),
        _ => false,
    }
}

/// Whether two optional ids are the same.
fn same_peeled(a: &Option<Vec<u8>>, b: &Option<Vec<u8>>) -> (same: bool)
    ensures
        same == (crate::model::opt_bytes(*a) == crate::model::opt_bytes(*b)),
{
    match (a, b) {
        (Some(x), Some(y)) => bytes_eq(x, y),
        (None, None) => true,
        _ => false,
    }
}

/// Whether two snapshots are of one reference in one state.
pub fn same_snapshot(a: &RefSnapshot, b: &RefSnapshot) -> (same: bool)
    ensures
        same == same_reference(a@, b@),
{
    bytes_eq(&a.name, &b.name) && same_target(&a.target, &b.target) && same_peeled(
        &a.peeled,
        &b.peeled,
    )
}

/// The first of `checkouts` that has `victim` checked out.
pub fn find_conflict(checkouts: &Vec<Checkout>, victim: &RefSnapshot) -> (found: Option<usize>)
    ensures
        is_first_conflict(checkout_values(checkouts@), victim@, found),
{
    let mut i: usize = 0;
    while i < checkouts.len()
        invariant
            i <= checkouts.len(),
            forall|k: int| 0 <= k < i ==> !holds(#[trigger] checkout_values(checkouts@)[k], victim@),
        decreases checkouts.len() - i,
    {
        let blocked = match &checkouts[i].head {
            Some(head) => same_snapshot(head, victim),
            None => false,
        };
        if blocked {
            return Some(i);
        }
        i += 1;
    }
    None
}

/// What was read of one working copy: its directory, if it has one, and
/// its checkout pointer, or the store's words where that could not be read.
#[derive(Debug)]
pub struct Reading {
    pub dir: Option<String>,
    pub head: Result<Option<RefSnapshot>, String>,
}

/// The mathematical value of a [`Reading`].
pub struct ReadingValue {
    pub dir: Option<Seq<char>>,
    pub head: Result<Option<SnapshotValue>, Seq<char>>,
}

impl View for Reading {
    type V = ReadingValue;

    open spec fn view(&self) -> ReadingValue {
        ReadingValue {
            dir: match self.dir {
                Some(dir) => Some(dir@),
                None => None,
            },
            head: match self.head {
                Ok(Some(head)) => Ok(Some(head@)),
                Ok(None) => Ok(None),
                Err(words) => Err(words@),
            },
        }
    }
}

/// The values of a vector of readings, in order.
pub open spec fn reading_values(readings: Seq<Reading>) -> Seq<ReadingValue> {
    readings.map_values(|r: Reading| r@)
}

/// The working copies among what was read, in order: each reading that has
/// a directory and a checkout pointer that could be read, with that
/// pointer as it was read. What has no directory is no working copy, and a
/// working copy whose pointer could not be read is passed over.
pub open spec fn kept(readings: Seq<ReadingValue>) -> Seq<CheckoutValue>
    decreases readings.len(),
{
    if readings.len() == 0 {
        Seq::empty()
    } else {
        let before = kept(readings.drop_last());
        match (readings.last().dir, readings.last().head) {
            (Some(dir), Ok(head)) => before.push(CheckoutValue { dir, head }),
            _ => before,
        }
    }
}

/// What the guard saw: what it read of each repository it could open, the
/// working copies among that, the first of them that holds the reference,
/// and what it passed over.
#[derive(Debug)]
pub struct WorktreeScan {
    /// What was read, of the linked working copies first and of the
    /// repository itself last.
    pub readings: Vec<Reading>,
    /// The working copies among the readings.
    pub checkouts: Vec<Checkout>,
    /// The place in `checkouts` of the first that holds the reference.
    pub conflict: Option<usize>,
    /// What was passed over, each with the store's words: a list of linked
    /// working copies that could not be had, a working copy that could not
    /// be opened, a checkout pointer that could not be read.
    pub skipped: Vec<StoreError>,
}

/// Whether `after` is `before` with one failure more at its end, met in
/// doing `operation`.
pub open spec fn notes_failure(
    before: Seq<StoreError>,
    after: Seq<StoreError>,
    operation: Operation,
) -> bool {
    &&& after.len() == before.len() + 1
    &&& after.drop_last() == before
    &&& after.last().operation == operation
}

/// Whether every failure was met in looking at the working copies.
pub open spec fn met_on_guard(skipped: Seq<StoreError>) -> bool {
    forall|i: int|
        0 <= i < skipped.len() ==> {
            ||| (#[trigger] skipped[i]).operation == Operation::ListWorktrees
            ||| skipped[i].operation == Operation::OpenWorktree
            ||| skipped[i].operation == Operation::ReadCheckout
        }
}

/// One more reading adds its working copy to those kept, if it is one.
proof fn kept_grows(readings: Seq<ReadingValue>, reading: ReadingValue)
    ensures
        kept(readings.push(reading)) == match (reading.dir, reading.head) {
            (Some(dir), Ok(head)) => kept(readings).push(CheckoutValue { dir, head }),
            _ => kept(readings),
        },
{
    assert(readings.push(reading).drop_last() =~= readings);
    assert(readings.push(reading).last() == reading);
}

/// One more failure met in looking at the working copies keeps it so.
proof fn met_on_guard_grows(before: Seq<StoreError>, after: Seq<StoreError>)
    requires
        met_on_guard(before),
        after == before || {
            ||| notes_failure(before, after, Operation::ListWorktrees)
            ||| notes_failure(before, after, Operation::OpenWorktree)
            ||| notes_failure(before, after, Operation::ReadCheckout)
        },
    ensures
        met_on_guard(after),
{
    if after != before {
        assert forall|i: int| 0 <= i < after.len() implies {
            ||| (#[trigger] after[i]).operation == Operation::ListWorktrees
            ||| after[i].operation == Operation::OpenWorktree
            ||| after[i].operation == Operation::ReadCheckout
        } by {
            if i < after.len() - 1 {
                assert(after[i] == after.drop_last()[i]);
            }
        }
    }
}

/// Takes one reading in. A reading with a directory and a checkout pointer
/// adds that working copy to `checkouts`, the pointer as it was read. One
/// with a directory whose pointer could not be read is passed over and
/// noted in `skipped` with the store's words. One without a directory is
/// no working copy and leaves all as it was.
fn note_checkout(checkouts: &mut Vec<Checkout>, skipped: &mut Vec<StoreError>, reading: &Reading)
    ensures
        match (reading@.dir, reading@.head) {
            (Some(dir), Ok(head)) => {
                &&& final(checkouts)@.drop_last() == old(checkouts)@
                &&& checkout_values(final(checkouts)@) == checkout_values(old(checkouts)@).push(
                    CheckoutValue { dir, head },
                )
                &&& final(skipped)@ == old(skipped)@
            },
            (Some(_), Err(words)) => {
                &&& final(checkouts)@ == old(checkouts)@
                &&& notes_failure(old(skipped)@, final(skipped)@, Operation::ReadCheckout)
                &&& final(skipped)@.last().detail@ == words
            },
            (None, _) => final(checkouts)@ == old(checkouts)@ && final(skipped)@ == old(skipped)@,
        },
{
    let dir = match &reading.dir {
        Some(dir) => dir.clone(),
        None => {
            return ;
        },
    };
    match &reading.head {
        Ok(pointer) => {
            let head = match pointer {
                Some(head) => Some(head.duplicate()),
                None => None,
            };
            let ghost before = checkout_values(checkouts@);
            checkouts.push(Checkout { dir, head });
            assert(checkouts@.drop_last() =~= old(checkouts)@);
            assert(checkout_values(checkouts@) =~= before.push(
                CheckoutValue { dir: reading@.dir->0, head: reading@.head->Ok_0 },
            ));
        },
        Err(words) => {
            skipped.push(
                StoreError {
                    operation: Operation::ReadCheckout,
                    subject: dir.as_str().as_bytes_vec(),
                    detail: words.clone(),
                },
            );
            assert(skipped@.drop_last() =~= old(skipped)@);
        },
    }
}

/// Reads the directory and the checkout pointer of a repository.
fn read_checkout(repo: &gix::Repository) -> (reading: Reading)
    ensures
        reading.head matches Ok(Some(head)) ==> head.short@ == short_form(head.name@),
{
    let head = match head_ref(repo) {
        Ok(Some(head)) => Ok(Some(snapshot_of(&head))),
        Ok(None) => Ok(None),
        Err(cause) => Err(describe(&cause)),
    };
    Reading { dir: workdir(repo), head }
}

/// Looks at every working copy of the repository, the linked ones and its
/// own, and finds the first that has `victim` checked out. A working copy
/// that cannot be opened or read is passed over and noted, and the scan goes
/// on; a repository without a working directory has none.
///
/// Whatever the store answers: the repository itself is read, last, so that
/// there is a reading; the working copies reported are exactly those among
/// the readings, each with its checkout pointer as it was read; the conflict
/// reported is the first among them; and what was passed over was met in
/// looking at the working copies.
pub fn check_worktrees(repo: &gix::Repository, victim: &RefSnapshot) -> (scan: WorktreeScan)
    ensures
        scan.readings.len() >= 1,
        checkout_values(scan.checkouts@) == kept(reading_values(scan.readings@)),
        is_first_conflict(checkout_values(scan.checkouts@), victim@, scan.conflict),
        met_on_guard(scan.skipped@),
{
    let mut readings: Vec<Reading> = Vec::new();
    let mut checkouts: Vec<Checkout> = Vec::new();
    let mut skipped: Vec<StoreError> = Vec::new();
    assert(checkout_values(checkouts@) =~= kept(reading_values(readings@)));
    match worktrees(repo) {
        Ok(linked) => {
            let mut i: usize = 0;
            while i < linked.len()
                invariant
                    i <= linked.len(),
                    checkout_values(checkouts@) == kept(reading_values(readings@)),
                    met_on_guard(skipped@),
                decreases linked.len() - i,
            {
                let ghost before = skipped@;
                match open_worktree(&linked[i]) {
                    Ok(tree_repo) => {
                        let reading = read_checkout(&tree_repo);
                        note_checkout(&mut checkouts, &mut skipped, &reading);
                        proof {
                            kept_grows(reading_values(readings@), reading@);
                        }
                        let ghost read = reading_values(readings@);
                        readings.push(reading);
                        assert(reading_values(readings@) =~= read.push(reading@));
                    },
                    Err(cause) => {
                        skipped.push(
                            StoreError {
                                operation: Operation::OpenWorktree,
                                subject: Vec::new(),
                                detail: describe(&cause),
                            },
                        );
                        assert(skipped@.drop_last() =~= before);
                    },
                }
                proof {
                    met_on_guard_grows(before, skipped@);
                }
                i += 1;
            }
        },
        Err(cause) => {
            skipped.push(
                StoreError {
                    operation: Operation::ListWorktrees,
                    subject: Vec::new(),
                    detail: describe(&cause),
                },
            );
            proof {
                assert(skipped@.drop_last() =~= Seq::<StoreError>::empty());
                met_on_guard_grows(Seq::empty(), skipped@);
            }
        },
    }
    let ghost before = skipped@;
    let own = read_checkout(repo);
    note_checkout(&mut checkouts, &mut skipped, &own);
    proof {
        met_on_guard_grows(before, skipped@);
        kept_grows(reading_values(readings@), own@);
    }
    let ghost read = reading_values(readings@);
    readings.push(own);
    assert(reading_values(readings@) =~= read.push(own@));
    let conflict = find_conflict(&checkouts, victim);
    WorktreeScan { readings, checkouts, conflict, skipped }
}

} // verus!
