//! Repointing a named reference of a repository to another revision, safely.
//!
//! A reference is moved in four steps: the name is resolved, and refused
//! where it means several references ([`resolver`]); the revision is
//! resolved, with the same care for the names in it ([`delegate`],
//! [`target`]); the working copies are looked at, so that no reference is
//! moved under a checkout ([`guard`]); and the update is applied as one step
//! under a precondition, with a line in the reference's log
//! ([`transaction`]). [`command`] puts the steps together and gives each
//! way in which they can end a value and an exit status.
//!
//! The store itself is `gix`. Every call into it stands in [`store`] or
//! beside the delegate, behind a contract that says what is taken on trust.

pub mod bytes;
pub mod command;
pub mod delegate;
pub mod error;
pub mod guard;
pub mod hex;
pub mod model;
pub mod resolver;
pub mod store;
pub mod target;
pub mod transaction;
pub mod victim;
