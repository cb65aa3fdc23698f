//! Telling whether a name means one reference or several.
//!
//! A lookup by short name silently takes the first namespace that has the
//! name. The resolver walks every reference of the store and reports each
//! other reference whose short form is the requested text.

use vstd::prelude::*;
use crate::bytes::{byte_strings, bytes_eq, copy_bytes};
use crate::error::{Operation, StoreError};
use crate::model::{RefSnapshot, SnapshotValue};
use crate::store::{all_references, describe, find_reference, short_form, snapshot_of};

verus! {

/// The outcome of resolving a name.
#[derive(Debug, Clone)]
pub enum MaybeAmbigRef {
    /// Several references go by the requested name; `possible` lists their
    /// full names, first the one that a plain lookup takes.
    Ambiguous { requested: Vec<u8>, possible: Vec<Vec<u8>> },
    /// The name means this reference and no other.
    NotAmbiguous(RefSnapshot),
}

/// The mathematical value of a [`MaybeAmbigRef`].
pub enum Resolution {
    Ambiguous { requested: Seq<u8>, possible: Seq<Seq<u8>> },
    NotAmbiguous(SnapshotValue),
}

impl View for MaybeAmbigRef {
    type V = Resolution;

    open spec fn view(&self) -> Resolution {
        match self {
            MaybeAmbigRef::Ambiguous { requested, possible } => Resolution::Ambiguous {
                requested: requested@,
                possible: byte_strings(possible@),
            },
            MaybeAmbigRef::NotAmbiguous(reference) => Resolution::NotAmbiguous(reference@),
        }
    }
}

impl Resolution {
    /// An ambiguity names at least two references.
    pub open spec fn wf(self) -> bool {
        self matches Resolution::Ambiguous { possible, .. } ==> possible.len() >= 2
    }
}

/// The values of a vector of snapshots, in order.
pub open spec fn snapshot_values(all: Seq<RefSnapshot>) -> Seq<SnapshotValue> {
    all.map_values(|r: RefSnapshot| r@)
}

/// Whether `candidate` is another reference than `primary` that goes by the
/// requested name. References are told apart by full name: two of them may
/// well point at one commit.
pub open spec fn competes(candidate: SnapshotValue, primary: Seq<u8>, requested: Seq<u8>) -> bool {
    candidate.name != primary && candidate.short == requested
}

/// The full names of the references in `all` that compete with `primary` for the
/// requested name, in the order of `all`.
pub open spec fn rivals(all: Seq<SnapshotValue>, primary: Seq<u8>, requested: Seq<u8>) -> Seq<
    Seq<u8>,
> {
    all.filter(|r: SnapshotValue| competes(r, primary, requested)).map_values(
        |r: SnapshotValue| r.name,
    )
}

/// What resolving `requested` gives in a store that holds `all`, where a plain
/// lookup of the name finds `primary`.
pub open spec fn resolution(requested: Seq<u8>, primary: SnapshotValue, all: Seq<SnapshotValue>) -> Resolution {
    let others = rivals(all, primary.name, requested);
    if others.len() == 0 {
        Resolution::NotAmbiguous(primary)
    } else {
        Resolution::Ambiguous { requested, possible: seq![primary.name] + others }
    }
}

/// One more reference at the end of `all` adds its name to the rivals if it
/// competes, and nothing otherwise.
proof fn rivals_step(all: Seq<SnapshotValue>, primary: Seq<u8>, requested: Seq<u8>, i: int)
    requires
        0 <= i < all.len(),
    ensures
        rivals(all.subrange(0, i + 1), primary, requested) == if competes(
            all[i],
            primary,
            requested,
        ) {
            rivals(all.subrange(0, i), primary, requested).push(all[i].name)
        } else {
            rivals(all.subrange(0, i), primary, requested)
        },
{
    reveal(Seq::filter);
    let pred = |r: SnapshotValue| competes(r, primary, requested);
    let longer = all.subrange(0, i + 1);
    assert(longer.drop_last() =~= all.subrange(0, i));
    assert(longer.last() == all[i]);
    let kept = all.subrange(0, i).filter(pred);
    if competes(all[i], primary, requested) {
        assert(longer.filter(pred) == kept.push(all[i]));
        assert(kept.push(all[i]).map_values(|r: SnapshotValue| r.name) =~= kept.map_values(
            |r: SnapshotValue| r.name,
        ).push(all[i].name));
    } else {
        assert(longer.filter(pred) == kept);
    }
}

/// Where no other reference of the store goes by the requested name, the
/// resolution is unambiguous and gives the very reference that the plain
/// lookup found.
pub proof fn law_single_match_is_unambiguous(
    requested: Seq<u8>,
    primary: SnapshotValue,
    all: Seq<SnapshotValue>,
)
    requires
        forall|i: int| 0 <= i < all.len() ==> !competes(#[trigger] all[i], primary.name, requested),
    ensures
        resolution(requested, primary, all) == Resolution::NotAmbiguous(primary),
{
    let pred = |r: SnapshotValue| competes(r, primary.name, requested);
    let kept = all.filter(pred);
    if kept.len() > 0 {
        all.lemma_filter_pred(pred, 0);
        assert(kept.contains(kept[0]));
        all.lemma_filter_contains_rev(pred, kept[0]);
        let j = choose|j: int| 0 <= j < all.len() && all[j] == kept[0];
        assert(!competes(all[j], primary.name, requested));
    }
}

/// Where another reference of the store goes by the requested name, the
/// resolution is ambiguous: it repeats the request, names at least two
/// references, puts first the one that the plain lookup found, and holds the
/// full name of every reference whose short form is the requested text.
pub proof fn law_shared_name_is_ambiguous(
    requested: Seq<u8>,
    primary: SnapshotValue,
    all: Seq<SnapshotValue>,
    other: int,
)
    requires
        0 <= other < all.len(),
        competes(all[other], primary.name, requested),
    ensures
        resolution(requested, primary, all) matches Resolution::Ambiguous {
            requested: repeated,
            possible,
        } && {
            &&& repeated == requested
            &&& possible.len() >= 2
            &&& possible[0] == primary.name
            &&& forall|i: int|
                0 <= i < all.len() && (#[trigger] all[i]).short == requested ==> possible.contains(
                    all[i].name,
                )
        },
{
    let pred = |r: SnapshotValue| competes(r, primary.name, requested);
    let kept = all.filter(pred);
    let others = rivals(all, primary.name, requested);
    let possible = seq![primary.name] + others;
    all.lemma_filter_contains(pred, other);
    assert(kept.len() > 0);
    assert(possible[0] == primary.name);
    assert forall|i: int| 0 <= i < all.len() && (#[trigger] all[i]).short == requested implies possible.contains(
        all[i].name,
    ) by {
        if all[i].name == primary.name {
            assert(possible[0] == all[i].name);
        } else {
            all.lemma_filter_contains(pred, i);
            let k = choose|k: int| 0 <= k < kept.len() && kept[k] == all[i];
            assert(others[k] == all[i].name);
            assert(possible[k + 1] == all[i].name);
        }
    }
}

/// Whether `name` is the full name of a reference in `all` that competes with
/// `primary` for the requested name.
pub open spec fn names_a_rival(
    all: Seq<SnapshotValue>,
    primary: Seq<u8>,
    requested: Seq<u8>,
    name: Seq<u8>,
) -> bool {
    exists|i: int| 0 <= i < all.len() && competes(#[trigger] all[i], primary, requested) && all[i].name == name
}

/// An ambiguity is well formed whatever the store holds, and every name in
/// it after the first is the full name of a competing reference of the
/// store.
pub proof fn law_candidates_come_from_the_store(
    requested: Seq<u8>,
    primary: SnapshotValue,
    all: Seq<SnapshotValue>,
)
    ensures
        resolution(requested, primary, all).wf(),
        resolution(requested, primary, all) matches Resolution::Ambiguous { possible, .. }
            ==> forall|k: int|
            1 <= k < possible.len() ==> names_a_rival(
                all,
                primary.name,
                requested,
                #[trigger] possible[k],
            ),
{
    let pred = |r: SnapshotValue| competes(r, primary.name, requested);
    let kept = all.filter(pred);
    let others = rivals(all, primary.name, requested);
    let possible = seq![primary.name] + others;
    if others.len() > 0 {
        assert forall|k: int| 1 <= k < possible.len() implies names_a_rival(
            all,
            primary.name,
            requested,
            #[trigger] possible[k],
        ) by {
            all.lemma_filter_pred(pred, k - 1);
            assert(kept.contains(kept[k - 1]));
            all.lemma_filter_contains_rev(pred, kept[k - 1]);
            let j = choose|j: int| 0 <= j < all.len() && all[j] == kept[k - 1];
            assert(possible[k] == others[k - 1]);
            assert(competes(all[j], primary.name, requested) && all[j].name == possible[k]);
        }
    }
}

/// Whether every snapshot carries the short form that the store gives its
/// name.
pub open spec fn shortened_by_store(all: Seq<SnapshotValue>) -> bool {
    forall|i: int| 0 <= i < all.len() ==> (#[trigger] all[i]).short == short_form(all[i].name)
}

/// Where every reference of the store carries the short form that the store
/// gives its name, every name in an ambiguity after the first is another
/// name than the first and has the requested text for its short form.
pub proof fn law_candidates_shorten_to_the_request(
    requested: Seq<u8>,
    primary: SnapshotValue,
    all: Seq<SnapshotValue>,
)
    requires
        shortened_by_store(all),
    ensures
        resolution(requested, primary, all) matches Resolution::Ambiguous { possible, .. }
            ==> forall|k: int|
            1 <= k < possible.len() ==> short_form(#[trigger] possible[k]) == requested
                && possible[k] != possible[0],
{
    law_candidates_come_from_the_store(requested, primary, all);
    if let Resolution::Ambiguous { possible, .. } = resolution(requested, primary, all) {
        assert forall|k: int| 1 <= k < possible.len() implies short_form(#[trigger] possible[k])
            == requested && possible[k] != possible[0] by {
            assert(names_a_rival(all, primary.name, requested, possible[k]));
            let i = choose|i: int|
                0 <= i < all.len() && competes(#[trigger] all[i], primary.name, requested)
                    && all[i].name == possible[k];
            assert(all[i].short == short_form(all[i].name));
        }
    }
}

/// Decides between one reference and several, given the reference that a
/// plain lookup found and every reference of the store.
pub fn classify(requested: &Vec<u8>, primary: RefSnapshot, all: &Vec<RefSnapshot>) -> (found:
    MaybeAmbigRef)
    ensures
        found@ == resolution(requested@, primary@, snapshot_values(all@)),
{
    let ghost values = snapshot_values(all@);
    let mut possible: Vec<Vec<u8>> = Vec::new();
    possible.push(copy_bytes(&primary.name));
    let mut i: usize = 0;
    proof {
        reveal(Seq::filter);
        assert(values.subrange(0, 0) =~= Seq::<SnapshotValue>::empty());
        assert(rivals(values.subrange(0, 0), primary.name@, requested@) =~= Seq::<Seq<u8>>::empty());
        assert(byte_strings(possible@) =~= seq![primary.name@]);
    }
    while i < all.len()
        invariant
            i <= all.len(),
            values == snapshot_values(all@),
            byte_strings(possible@) == seq![primary.name@] + rivals(
                values.subrange(0, i as int),
                primary.name@,
                requested@,
            ),
        decreases all.len() - i,
    {
        let entry = &all[i];
        let ghost before = byte_strings(possible@);
        proof {
            rivals_step(values, primary.name@, requested@, i as int);
            assert(values[i as int] == entry@);
        }
        if !bytes_eq(&entry.name, &primary.name) && bytes_eq(&entry.short, requested) {
            possible.push(copy_bytes(&entry.name));
            assert(byte_strings(possible@) =~= before.push(entry.name@));
            assert(byte_strings(possible@) =~= seq![primary.name@] + rivals(
                values.subrange(0, i + 1),
                primary.name@,
                requested@,
            ));
        }
        i += 1;
    }
    assert(values.subrange(0, all.len() as int) =~= values);
    if possible.len() == 1 {
        MaybeAmbigRef::NotAmbiguous(primary)
    } else {
        MaybeAmbigRef::Ambiguous { requested: copy_bytes(requested), possible }
    }
}

/// Whether every entry of a walk of the store could be read.
pub open spec fn all_readable(listed: Seq<Result<gix::Reference<'_>, gix::Error>>) -> bool {
    forall|i: int| 0 <= i < listed.len() ==> (#[trigger] listed[i]) is Ok
}

/// The snapshots of the references that a walk of the store listed, in its
/// order: one for each entry, each with the short form that the store gives
/// its name. A walk with an entry that could not be read gives no snapshots
/// but the store's words on the first such entry.
fn readable_snapshots(listed: &Vec<Result<gix::Reference<'_>, gix::Error>>) -> (snapshots: Result<
    Vec<RefSnapshot>,
    String,
>)
    ensures
        snapshots is Ok <==> all_readable(listed@),
        snapshots matches Ok(all) ==> all.len() == listed.len() && shortened_by_store(
            snapshot_values(all@),
        ),
{
    let mut all: Vec<RefSnapshot> = Vec::new();
    let mut i: usize = 0;
    while i < listed.len()
        invariant
            i <= listed.len(),
            all.len() == i,
            forall|k: int| 0 <= k < i ==> (#[trigger] listed@[k]) is Ok,
            shortened_by_store(snapshot_values(all@)),
        decreases listed.len() - i,
    {
        match &listed[i] {
            Ok(reference) => {
                let snapshot = snapshot_of(reference);
                let ghost before = snapshot_values(all@);
                all.push(snapshot);
                assert(snapshot_values(all@) =~= before.push(snapshot@));
            },
            Err(cause) => {
                return Err(describe(cause));
            },
        }
        i += 1;
    }
    Ok(all)
}

/// Whether `found` can be what resolving `refname` gives in a store that
/// shortens names as `gix` does. An ambiguity repeats the request and names
/// two references or more, each after the first another than the first and
/// with the request for its short form; a single reference carries the short
/// form of its name.
pub open spec fn answers(found: Resolution, refname: Seq<u8>) -> bool {
    match found {
        Resolution::Ambiguous { requested, possible } => {
            &&& requested == refname
            &&& possible.len() >= 2
            &&& forall|k: int|
                1 <= k < possible.len() ==> short_form(#[trigger] possible[k]) == refname
                    && possible[k] != possible[0]
        },
        Resolution::NotAmbiguous(reference) => reference.short == short_form(reference.name),
    }
}

/// Resolution of names against a repository.
pub trait RepositoryExt {
    /// Resolves `refname` against the store: looks the name up, walks every
    /// reference, and reports the others that go by the same short name. A
    /// reference that the walk cannot read fails the resolution: a store that
    /// could not be read in full is never answered for.
    ///
    /// Whatever the store answers, a result is the resolution of `refname`
    /// for the reference that the lookup found and the references that the
    /// walk listed, each with the short form that the store gives its
    /// name. So an ambiguity repeats the request and names two references
    /// or more, each after the first another than the first and with the
    /// request for its short form. A failure says whether the lookup or the
    /// walk failed.
    fn find_ambiguous_references(&self, refname: &Vec<u8>) -> (found: Result<MaybeAmbigRef, StoreError>)
        ensures
            found matches Ok(outcome) ==> exists|primary: SnapshotValue, all: Seq<SnapshotValue>|
                {
                    &&& primary.short == short_form(primary.name)
                    &&& shortened_by_store(all)
                    &&& outcome@ == #[trigger] resolution(refname@, primary, all)
                },
            found matches Ok(outcome) ==> answers(outcome@, refname@),
            found matches Err(failure) ==> {
                &&& failure.subject@ == refname@
                &&& failure.operation == Operation::FindReference || failure.operation
                    == Operation::ListReferences
            },
    ;
}

impl RepositoryExt for gix::Repository {
    fn find_ambiguous_references(&self, refname: &Vec<u8>) -> (found: Result<MaybeAmbigRef, StoreError>) {
        let primary = match find_reference(self, refname) {
            Ok(reference) => snapshot_of(&reference),
            Err(cause) => {
                return Err(
                    StoreError {
                        operation: Operation::FindReference,
                        subject: copy_bytes(refname),
                        detail: describe(&cause),
                    },
                );
            },
        };
        let listed = match all_references(self) {
            Ok(listed) => listed,
            Err(cause) => {
                return Err(
                    StoreError {
                        operation: Operation::ListReferences,
                        subject: copy_bytes(refname),
                        detail: describe(&cause),
                    },
                );
            },
        };
        let all = match readable_snapshots(&listed) {
            Ok(all) => all,
            Err(detail) => {
                return Err(
                    StoreError {
                        operation: Operation::ListReferences,
                        subject: copy_bytes(refname),
                        detail,
                    },
                );
            },
        };
        let ghost primary_value = primary@;
        let outcome = classify(refname, primary, &all);
        proof {
            law_candidates_shorten_to_the_request(refname@, primary_value, snapshot_values(all@));
            assert(outcome@ == resolution(refname@, primary_value, snapshot_values(all@)));
        }
        Ok(outcome)
    }
}

} // verus!
