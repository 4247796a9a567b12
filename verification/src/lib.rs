//! Core engine of an interactive status dashboard over a version-controlled
//! working tree: a cursor-addressable list with wrap-around navigation, a
//! snapshot of per-file status entries with staged/unstaged classification,
//! the stage-toggle decision taken for the selected entry, and the
//! ahead/behind divergence between a local branch and its upstream.
//!
//! All repository, terminal and input work is left to the host program; the
//! functions here take the collaborators' answers as plain values and are
//! verified against the contracts below.

pub mod app;
pub mod branch;
pub mod list;
pub mod status;

use vstd::prelude::*;

verus! {

/// The error kinds surfaced by the core.
#[derive(Clone, Copy, Debug, PartialEq, Eq, Structural)]
pub enum GitError {
    /// The repository collaborator failed (I/O or corruption); the action
    /// that triggered it simply does not complete.
    RepositoryError,
    /// A status entry lacks a representable path; scoped to that entry.
    InvalidPath,
    /// The cursor points past the bounds of the current snapshot.
    StaleSelection,
}

} // verus!
