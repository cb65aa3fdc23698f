//! The values the library works on: references as they were read, in plain
//! bytes.

use vstd::prelude::*;
use crate::bytes::copy_bytes;

verus! {

/// The namespace in which a new reference is made.
#[derive(Debug, Clone, Copy, PartialEq, Eq, PartialOrd, Hash, Structural)]
pub enum NewRefKind {
    /// A lightweight tag, under `refs/tags/`.
    Tag,
    /// A branch, under `refs/heads/`.
    Branch,
    /// A remote-tracking branch, under `refs/remotes/`.
    RemoteBranch,
    /// No namespace: the name is taken as it is written.
    Raw,
}

/// What a reference holds: an object id, or the full name of another
/// reference.
#[derive(Debug, Clone, PartialEq, Eq, Hash)]
pub enum RefTarget {
    Object(Vec<u8>),
    Symbolic(Vec<u8>),
}

/// The mathematical value of a [`RefTarget`].
pub enum TargetValue {
    Object(Seq<u8>),
    Symbolic(Seq<u8>),
}

impl View for RefTarget {
    type V = TargetValue;

    open spec fn view(&self) -> TargetValue {
        match self {
            RefTarget::Object(id) => TargetValue::Object(id@),
            RefTarget::Symbolic(name) => TargetValue::Symbolic(name@),
        }
    }
}

/// A reference as it stood when it was read.
#[derive(Debug, Clone, PartialEq, Eq, Hash)]
pub struct RefSnapshot {
    /// The full name, such as `refs/heads/main`.
    pub name: Vec<u8>,
    /// The name without its namespace, such as `main`.
    pub short: Vec<u8>,
    /// What the reference holds.
    pub target: RefTarget,
    /// The object at the end of all indirections, where the store recorded it.
    pub peeled: Option<Vec<u8>>,
}

/// The mathematical value of a [`RefSnapshot`].
pub struct SnapshotValue {
    pub name: Seq<u8>,
    pub short: Seq<u8>,
    pub target: TargetValue,
    pub peeled: Option<Seq<u8>>,
}

/// The bytes of an optional byte string.
pub open spec fn opt_bytes(v: Option<Vec<u8>>) -> Option<Seq<u8>> {
    match v {
        Some(b) => Some(b@),
        None => None,
    }
}

impl View for RefSnapshot {
    type V = SnapshotValue;

    open spec fn view(&self) -> SnapshotValue {
        SnapshotValue {
            name: self.name@,
            short: self.short@,
            target: self.target@,
            peeled: opt_bytes(self.peeled),
        }
    }
}

impl RefSnapshot {
    /// A copy of the snapshot.
    pub fn duplicate(&self) -> (copy: RefSnapshot)
        ensures
            copy@ == self@,
    {
        let target = match &self.target {
            RefTarget::Object(id) => RefTarget::Object(copy_bytes(id)),
            RefTarget::Symbolic(name) => RefTarget::Symbolic(copy_bytes(name)),
        };
        let peeled = match &self.peeled {
            Some(id) => Some(copy_bytes(id)),
            None => None,
        };
        RefSnapshot { name: copy_bytes(&self.name), short: copy_bytes(&self.short), target, peeled }
    }
}

/// Two snapshots are of one reference in one state: name, target and peeled
/// object agree.
pub open spec fn same_reference(a: SnapshotValue, b: SnapshotValue) -> bool {
    a.name == b.name && a.target == b.target && a.peeled == b.peeled
}

} // verus!
