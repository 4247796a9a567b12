//! Branch identity and ahead/behind divergence from the upstream.

use vstd::prelude::*;
use vstd::string::StringExecFns;

verus! {

/// Which namespace a branch lookup is made in.
#[derive(Clone, Copy, Debug, PartialEq, Eq, Structural)]
pub enum BranchType {
    /// A branch of the repository itself.
    Local,
    /// A remote-tracking branch.
    Remote,
}

/// A resolved branch tip, carried as the raw bytes of the object id of the
/// commit it points to.
#[derive(Clone, Debug, PartialEq, Eq)]
pub struct BranchTip {
    pub id: Vec<u8>,
}

/// The divergence state of the checked-out branch: its name, the resolved
/// local and upstream tips, and the ahead/behind commit counts between them.
///
/// The counts default to `(0, 0)` whenever either tip is missing; when both
/// tips resolved but the graph computation itself failed, they also default
/// to `(0, 0)` and `degraded` is set, so a caller can surface a warning
/// instead of silently showing no divergence.
#[derive(Debug, PartialEq, Eq)]
pub struct Branch {
    pub name: Option<String>,
    pub local: Option<BranchTip>,
    pub remote: Option<BranchTip>,
    pub ahead_behind: (usize, usize),
    pub degraded: bool,
}

/// The ahead/behind counts chosen from the resolved tips and the outcome of
/// the commit-graph computation: `(0, 0)` unless both tips resolved and the
/// computation succeeded.
pub open spec fn divergence_counts(
    local: Option<BranchTip>,
    upstream: Option<BranchTip>,
    graph: Option<(usize, usize)>,
) -> (usize, usize) {
    if local is None || upstream is None {
        (0usize, 0usize)
    } else {
        match graph {
            Option::Some(counts) => counts,
            Option::None => (0usize, 0usize),
        }
    }
}

/// True exactly when the divergence display is degraded: both tips resolved,
/// yet the commit-graph computation failed.
pub open spec fn divergence_degraded(
    local: Option<BranchTip>,
    upstream: Option<BranchTip>,
    graph: Option<(usize, usize)>,
) -> bool {
    local is Some && upstream is Some && graph is None
}

/// The branch name taken from the repository head: absent when the head is
/// unborn or detached without a name.
pub open spec fn name_of_head(head_shorthand: Option<Option<String>>) -> Option<String> {
    match head_shorthand {
        Option::Some(Option::Some(n)) => Option::Some(n),
        _ => Option::None::<String>,
    }
}

impl Branch {
    /// A fresh divergence state, before the repository has been consulted.
    pub fn new() -> (r: Branch)
        ensures
            r.name matches Option::Some(n) && n@ == "main"@,
            r.local == Option::<BranchTip>::None,
            r.remote == Option::<BranchTip>::None,
            r.ahead_behind == (0usize, 0usize),
            !r.degraded,
    {
        Branch {
            name: Option::Some(String::from_str("main")),
            local: Option::None,
            remote: Option::None,
            ahead_behind: (0, 0),
            degraded: false,
        }
    }

    /// The name of the checked-out branch, given the head reported by the
    /// repository: `head_shorthand` is `None` when the head is unborn or
    /// missing, and carries the head's shorthand name otherwise (which may
    /// itself be absent). Both absences yield `None`.
    pub fn get_current_branch_name(head_shorthand: Option<Option<String>>) -> (r: Option<String>)
        ensures
            r == name_of_head(head_shorthand),
    {
        match head_shorthand {
            Option::Some(Option::Some(n)) => Option::Some(n),
            _ => Option::None,
        }
    }

    /// The name under which a branch is looked up: the branch's own name in
    /// the local namespace, and `origin/<name>` in the remote namespace (the
    /// upstream remote is taken to be `origin` when no explicit tracking
    /// configuration is consulted — a deliberate simplification).
    pub fn get_branch_lookup_name(branch_name: &String, branch_type: BranchType) -> (r: String)
        ensures
            branch_type == BranchType::Local ==> r@ == branch_name@,
            branch_type == BranchType::Remote ==> r@ == "origin/"@ + branch_name@,
    {
        match branch_type {
            BranchType::Local => branch_name.clone(),
            BranchType::Remote => String::from_str("origin/").concat(branch_name.as_str()),
        }
    }

    /// The ahead/behind counts for the given tips: `(0, 0)` when either tip
    /// is missing, else the graph computation's counts, degraded to `(0, 0)`
    /// when that computation failed.
    pub fn get_ahead_behind(
        local_branch: &Option<BranchTip>,
        upstream_branch: &Option<BranchTip>,
        graph: Option<(usize, usize)>,
    ) -> (r: (usize, usize))
        ensures
            r == divergence_counts(*local_branch, *upstream_branch, graph),
    {
        if local_branch.is_none() || upstream_branch.is_none() {
            return (0, 0);
        }
        match graph {
            Option::Some(counts) => counts,
            Option::None => (0, 0),
        }
    }

    /// Fills the divergence state from the repository's answers: the head's
    /// shorthand (absent when the head is unborn or missing), the resolved
    /// local and upstream tips, and the outcome of the commit-graph
    /// computation.
    ///
    /// An unborn or nameless head is a normal terminal state, not an error:
    /// the name and both tips end up `None`, the counts `(0, 0)`.
    pub fn initialize(
        &mut self,
        head_shorthand: Option<Option<String>>,
        local: Option<BranchTip>,
        remote: Option<BranchTip>,
        graph: Option<(usize, usize)>,
    )
        ensures
            final(self).name == name_of_head(head_shorthand),
            name_of_head(head_shorthand) is None ==> {
                &&& final(self).local == Option::<BranchTip>::None
                &&& final(self).remote == Option::<BranchTip>::None
                &&& final(self).ahead_behind == (0usize, 0usize)
                &&& !final(self).degraded
            },
            name_of_head(head_shorthand) is Some ==> {
                &&& final(self).local == local
                &&& final(self).remote == remote
                &&& final(self).ahead_behind == divergence_counts(local, remote, graph)
                &&& final(self).degraded == divergence_degraded(local, remote, graph)
            },
    {
        self.name = Self::get_current_branch_name(head_shorthand);
        if self.name.is_some() {
            self.ahead_behind = Self::get_ahead_behind(&local, &remote, graph);
            self.degraded = local.is_some() && remote.is_some() && graph.is_none();
            self.local = local;
            self.remote = remote;
        } else {
            self.local = Option::None;
            self.remote = Option::None;
            self.ahead_behind = (0, 0);
            self.degraded = false;
        }
    }
}

} // verus!
