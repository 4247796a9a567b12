//! Per-file status entries and their classification.

use vstd::prelude::*;
use crate::GitError;

verus! {

/// New in the index (staged addition).
pub const INDEX_NEW: u32 = 0x0001;

/// Modified in the index (staged modification).
pub const INDEX_MODIFIED: u32 = 0x0002;

/// Deleted from the index (staged deletion).
pub const INDEX_DELETED: u32 = 0x0004;

/// Renamed in the index (staged rename).
pub const INDEX_RENAMED: u32 = 0x0008;

/// Type changed in the index (staged type change).
pub const INDEX_TYPECHANGE: u32 = 0x0010;

/// New in the working tree (untracked file).
pub const WT_NEW: u32 = 0x0080;

/// Modified in the working tree, not yet staged.
pub const WT_MODIFIED: u32 = 0x0100;

/// Deleted from the working tree, not yet staged.
pub const WT_DELETED: u32 = 0x0200;

/// Type changed in the working tree, not yet staged.
pub const WT_TYPECHANGE: u32 = 0x0400;

/// Renamed in the working tree, not yet staged.
pub const WT_RENAMED: u32 = 0x0800;

/// True when `bits` has every bit of `flag` set.
pub open spec fn has_flag(bits: u32, flag: u32) -> bool {
    bits & flag == flag
}

/// Per-file status bits, laid out as the version-control engine reports
/// them: the low bits describe the index (staging area) side, the bits from
/// `WT_NEW` up describe the working-tree side. A path may carry bits on both
/// sides at once.
#[derive(Clone, Copy, Debug, PartialEq, Eq, Structural)]
pub struct Status {
    pub bits: u32,
}

impl Status {
    /// True when any index-side bit is set: the entry has a staged change.
    pub open spec fn staged(self) -> bool {
        has_flag(self.bits, INDEX_NEW) || has_flag(self.bits, INDEX_MODIFIED)
            || has_flag(self.bits, INDEX_DELETED) || has_flag(self.bits, INDEX_RENAMED)
            || has_flag(self.bits, INDEX_TYPECHANGE)
    }

    /// The working-tree-side classification used for display. Precedence
    /// when several bits are set: new, then modified, then deleted.
    pub open spec fn display_class_spec(self) -> DisplayClass {
        if has_flag(self.bits, WT_NEW) {
            DisplayClass::Untracked
        } else if has_flag(self.bits, WT_MODIFIED) {
            DisplayClass::Modified
        } else if has_flag(self.bits, WT_DELETED) {
            DisplayClass::Deleted
        } else {
            DisplayClass::Unchanged
        }
    }

    /// The display classification of this entry's working-tree side.
    pub fn display_class(&self) -> (r: DisplayClass)
        ensures
            r == self.display_class_spec(),
    {
        if self.bits & WT_NEW == WT_NEW {
            DisplayClass::Untracked
        } else if self.bits & WT_MODIFIED == WT_MODIFIED {
            DisplayClass::Modified
        } else if self.bits & WT_DELETED == WT_DELETED {
            DisplayClass::Deleted
        } else {
            DisplayClass::Unchanged
        }
    }
}

/// Read access to the staged/unstaged classification of a status value.
pub trait StatusExt {
    /// The staged classification as a mathematical value.
    spec fn staged_spec(&self) -> bool;

    /// True when the value carries a staged (index-side) change.
    fn is_staged(&self) -> (r: bool)
        ensures
            r == self.staged_spec(),
    ;
}

impl StatusExt for Status {
    open spec fn staged_spec(&self) -> bool {
        self.staged()
    }

    fn is_staged(&self) -> (r: bool) {
        self.bits & INDEX_NEW == INDEX_NEW || self.bits & INDEX_MODIFIED == INDEX_MODIFIED
            || self.bits & INDEX_DELETED == INDEX_DELETED
            || self.bits & INDEX_RENAMED == INDEX_RENAMED
            || self.bits & INDEX_TYPECHANGE == INDEX_TYPECHANGE
    }
}

/// The worktree-side display classification of a status entry.
#[derive(Clone, Copy, Debug, PartialEq, Eq, Structural)]
pub enum DisplayClass {
    /// New in the working tree, not tracked yet.
    Untracked,
    /// Modified in the working tree.
    Modified,
    /// Deleted from the working tree.
    Deleted,
    /// No working-tree-side change (for instance a purely staged change).
    Unchanged,
}

/// One changed path as reported by a snapshot refresh. The path is optional
/// because the engine may report an entry whose path has no representable
/// string form; such an entry is an error at the point of use, not a silent
/// drop.
#[derive(Clone, Debug, PartialEq, Eq)]
pub struct StatusEntry {
    pub path: Option<String>,
    pub status: Status,
}

/// Read access to the path of a status entry, made an error when absent.
pub trait GetPath {
    /// The path carried by the value, absent when not representable.
    spec fn path_spec(&self) -> Option<String>;

    /// The entry's path, or `InvalidPath` when the entry has none.
    fn get_path(&self) -> (r: Result<&String, GitError>)
        ensures
            match r {
                Result::Ok(p) => self.path_spec() == Option::Some(*p),
                Result::Err(e) => self.path_spec() == Option::<String>::None
                    && e == GitError::InvalidPath,
            },
    ;
}

impl GetPath for StatusEntry {
    open spec fn path_spec(&self) -> Option<String> {
        self.path
    }

    fn get_path(&self) -> (r: Result<&String, GitError>) {
        match &self.path {
            Option::Some(p) => Result::Ok(p),
            Option::None => Result::Err(GitError::InvalidPath),
        }
    }
}

/// One row handed to the rendering collaborator: the text to draw and its
/// display classification.
#[derive(Clone, Debug, PartialEq, Eq)]
pub struct ListRow {
    pub text: String,
    pub class: DisplayClass,
}

/// True when `r` is the row produced for entry `e`: the entry's path with
/// its display classification, or `InvalidPath` when the path is absent.
pub open spec fn row_matches(e: StatusEntry, r: Result<ListRow, GitError>) -> bool {
    match e.path {
        Option::Some(p) => r matches Result::Ok(row) && row.text@ == p@
            && row.class == e.status.display_class_spec(),
        Option::None => r == Result::<ListRow, GitError>::Err(GitError::InvalidPath),
    }
}

/// The full change set of the working tree as of one refresh: an ordered
/// sequence of status entries, read-only between refreshes.
#[derive(Clone, Debug, PartialEq, Eq)]
pub struct StatusSnapshot {
    pub entries: Vec<StatusEntry>,
}

impl StatusSnapshot {
    /// The number of entries in the snapshot.
    pub fn len(&self) -> (n: usize)
        ensures
            n == self.entries@.len(),
    {
        self.entries.len()
    }

    /// One row per entry, in snapshot order: the path with its display
    /// classification, or `InvalidPath` for an entry without a path, so the
    /// caller can decide to skip or abort that entry alone.
    pub fn list_items(&self) -> (r: Vec<Result<ListRow, GitError>>)
        ensures
            r@.len() == self.entries@.len(),
            forall|i: int| 0 <= i < r@.len() ==> row_matches(self.entries@[i], r@[i]),
    {
        let mut out: Vec<Result<ListRow, GitError>> = Vec::new();
        let mut idx: usize = 0;
        while idx < self.entries.len()
            invariant
                idx <= self.entries@.len(),
                out@.len() == idx,
                forall|j: int| 0 <= j < idx ==> row_matches(self.entries@[j], out@[j]),
            decreases self.entries@.len() - idx,
        {
            let e = &self.entries[idx];
            let item = match &e.path {
                Option::Some(p) => Result::Ok(
                    ListRow { text: p.clone(), class: e.status.display_class() },
                ),
                Option::None => Result::Err(GitError::InvalidPath),
            };
            out.push(item);
            idx = idx + 1;
        }
        out
    }
}

} // verus!
