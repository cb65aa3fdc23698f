//! Failures of the store, with what was being done when they came.

use vstd::prelude::*;

verus! {

/// What the library was doing when the store failed.
#[derive(Debug, Clone, Copy, PartialEq, Eq, Structural)]
pub enum Operation {
    /// Looking a reference up by name.
    FindReference,
    /// Walking the references of the store.
    ListReferences,
    /// Following a reference to the object at its end.
    PeelReference,
    /// Reading the commit that an id names.
    FindCommit,
    /// Reading the message of a commit.
    ReadMessage,
    /// Resolving a revision to an object.
    ParseRevspec,
    /// Holding the name of a reference to the rules for full names.
    ValidateName,
    /// Listing the linked working copies.
    ListWorktrees,
    /// Opening a linked working copy.
    OpenWorktree,
    /// Reading the checkout pointer of a working copy.
    ReadCheckout,
}

/// A failure of the store.
#[derive(Debug, Clone, PartialEq, Eq)]
pub struct StoreError {
    /// What was being done.
    pub operation: Operation,
    /// The name, revision or id that it was done with.
    pub subject: Vec<u8>,
    /// The store's own words.
    pub detail: String,
}

} // verus!
