//! Application state: the status list, the branch divergence, and the
//! stage-toggle decision taken for the selected entry.

use vstd::prelude::*;
use vstd::string::StringExecFns;
use crate::GitError;
use crate::branch::Branch;
use crate::list::StatefulList;
use crate::list::clamped_cursor;
use crate::status::GetPath;
use crate::status::StatusEntry;
use crate::status::StatusExt;
use crate::status::StatusSnapshot;

verus! {

/// The repository operation the primary action asks the host to perform.
#[derive(Clone, Debug, PartialEq, Eq)]
pub enum ToggleAction {
    /// Nothing selected: the action completes without touching the index.
    Nothing,
    /// Stage: add the path to the index.
    AddPathToIndex(String),
    /// Unstage: reset the path's index entry to match the current head
    /// commit (removing it from the index when the head has no such path).
    ResetPath(String),
}

/// The staging state an action drives its path towards: `true` for staging,
/// `false` for unstaging, absent when the action touches nothing.
pub open spec fn action_target(a: ToggleAction) -> Option<bool> {
    match a {
        ToggleAction::Nothing => Option::None::<bool>,
        ToggleAction::AddPathToIndex(_) => Option::Some(true),
        ToggleAction::ResetPath(_) => Option::Some(false),
    }
}

/// The toggle decision for one entry: unstage it when it carries a staged
/// change, stage it otherwise; an entry without a path is `InvalidPath`.
pub open spec fn toggle_decision(e: StatusEntry) -> Result<ToggleAction, GitError> {
    match e.path {
        Option::None => Result::Err(GitError::InvalidPath),
        Option::Some(p) => if e.status.staged() {
            Result::Ok(ToggleAction::ResetPath(p))
        } else {
            Result::Ok(ToggleAction::AddPathToIndex(p))
        },
    }
}

/// Law: a toggle pair restores the staging classification. The first
/// decision drives the entry towards the opposite of its staging state; on
/// the entry the refresh then shows (same path, staging flipped by the
/// performed action), the second decision drives it back to the original
/// state. The hypothesis on `refreshed` models the repository collaborator
/// having performed the first action before the refresh.
pub proof fn lemma_toggle_round_trip(e: StatusEntry, refreshed: StatusEntry)
    requires
        e.path is Some,
        refreshed.path == e.path,
        refreshed.status.staged() == !e.status.staged(),
    ensures
        toggle_decision(e) matches Result::Ok(a) && action_target(a) == Option::Some(
            !e.status.staged(),
        ),
        toggle_decision(refreshed) matches Result::Ok(a2) && action_target(a2) == Option::Some(
            e.status.staged(),
        ),
{
}

/// The whole application state between two input events: the status list
/// with its cursor, and the divergence of the checked-out branch.
pub struct App {
    pub title: String,
    pub list: StatefulList<StatusEntry>,
    pub branch: Branch,
}

impl App {
    /// The decision `primary_action` returns, over the current cursor and
    /// items: no selection is a successful no-op; a cursor past the items is
    /// `StaleSelection`; otherwise the toggle decision for the selected
    /// entry.
    pub open spec fn primary_action_spec(&self) -> Result<ToggleAction, GitError> {
        match self.list.selected() {
            Option::None => Result::Ok(ToggleAction::Nothing),
            Option::Some(i) => if i >= self.list.items@.len() {
                Result::Err(GitError::StaleSelection)
            } else {
                toggle_decision(self.list.items@[i])
            },
        }
    }

    /// A fresh application over an initial snapshot: nothing selected, the
    /// branch divergence at its defaults.
    pub fn new(statuses: StatusSnapshot) -> (r: App)
        ensures
            r.title@ == "RustyGit"@,
            r.list.items@ == statuses.entries@,
            r.list.selected() == Option::<int>::None,
            r.list.inv(),
            r.branch.name matches Option::Some(n) && n@ == "main"@,
            r.branch.local == Option::<crate::branch::BranchTip>::None,
            r.branch.remote == Option::<crate::branch::BranchTip>::None,
            r.branch.ahead_behind == (0usize, 0usize),
            !r.branch.degraded,
    {
        App {
            title: String::from_str("RustyGit"),
            list: StatefulList::with_items(statuses.entries),
            branch: Branch::new(),
        }
    }

    /// Replaces the list's backing entries with a fresh snapshot. The cursor
    /// is reconciled by index: kept, clamped to the new bounds, dropped when
    /// the new snapshot is empty.
    pub fn refresh_statuses(&mut self, statuses: StatusSnapshot)
        ensures
            final(self).list.items@ == statuses.entries@,
            final(self).list.selected() == clamped_cursor(
                old(self).list.selected(),
                statuses.entries@.len() as int,
            ),
            final(self).list.inv(),
            final(self).title == old(self).title,
            final(self).branch == old(self).branch,
    {
        self.list.update_items(statuses.entries);
    }

    /// The entry at `index` in the current snapshot, or `StaleSelection`
    /// when the index lies past its bounds (the snapshot may have been
    /// refreshed since the cursor was set).
    pub fn status_entry_at_index(&self, index: usize) -> (r: Result<&StatusEntry, GitError>)
        ensures
            index < self.list.items@.len() ==> (r matches Result::Ok(e) && *e == self.list.items@[
                index as int
            ]),
            index >= self.list.items@.len() ==> r == Result::<&StatusEntry, GitError>::Err(
                GitError::StaleSelection,
            ),
    {
        if index < self.list.items.len() {
            Result::Ok(&self.list.items[index])
        } else {
            Result::Err(GitError::StaleSelection)
        }
    }

    /// Decides the stage toggle for the selected entry: with no selection a
    /// successful no-op; with a cursor past the current snapshot
    /// `StaleSelection`; with an entry lacking a path `InvalidPath`; else
    /// the path is to be unstaged when its change is staged and staged
    /// otherwise. The returned action is handed to the repository
    /// collaborator, after which a snapshot refresh is due.
    pub fn primary_action(&self) -> (r: Result<ToggleAction, GitError>)
        ensures
            r == self.primary_action_spec(),
    {
        match self.list.selected_index() {
            Option::None => Result::Ok(ToggleAction::Nothing),
            Option::Some(index) => match self.status_entry_at_index(index) {
                Result::Err(e) => Result::Err(e),
                Result::Ok(entry) => match entry.get_path() {
                    Result::Err(e) => Result::Err(e),
                    Result::Ok(path) => if entry.status.is_staged() {
                        Result::Ok(ToggleAction::ResetPath(path.clone()))
                    } else {
                        Result::Ok(ToggleAction::AddPathToIndex(path.clone()))
                    },
                },
            },
        }
    }
}

} // verus!
