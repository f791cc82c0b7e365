//! Local-repository reconciliation: bringing a working clone into sync
//! with the upstream's current branch set while never touching the
//! checked-out default branch's history, and pushing the result to a
//! backup remote.
//!
//! The Git executable is an injected collaborator: [`SyncMachine`] and
//! [`PushMachine`] emit one [`GitOp`] at a time, the caller runs it and
//! reports the outcome, and every decision in between is verified here.

use vstd::prelude::*;
use crate::errors::MirrorError;
use crate::strutil::{
    spec_split, spec_starts_with, spec_trim, split_by, str_eq, str_starts_with, trim_str,
};

verus! {

/// The Git subprocess invocations the engine issues. Every operation
/// addresses one working tree explicitly.
pub enum GitOp {
    /// Whether the path is a valid working tree; failure means "not yet
    /// cloned", never an error.
    Probe { path: String },
    /// Clones the remote into the path.
    CloneRepo { src: String, dst: String },
    /// Configures non-rebasing pulls in a fresh clone.
    ConfigurePull { path: String },
    /// Renames a legacy `upstream` remote back to `origin`; tolerated to
    /// fail when no such rename is needed.
    RestoreRemoteName { path: String },
    /// Plain pull of the checked-out branch (default-branch-only mode).
    PullCurrent { path: String },
    /// Fetches all remote refs.
    FetchAll { path: String },
    /// Lists local and remote-tracking branches.
    ListBranches { path: String },
    /// Deletes a local branch that no longer exists upstream.
    DeleteBranch { path: String, branch: String },
    /// Creates a local tracking branch for a remote one.
    CreateTracking { path: String, branch: String },
    /// Pulls one branch from origin to fast-forward it.
    PullBranch { path: String, branch: String },
    /// Drops a stale backup remote; tolerated to fail when none exists.
    RemoveBackupRemote { path: String },
    /// Points the backup remote at the resolved destination URL.
    AddBackupRemote { path: String, url: String },
    /// Pushes all branches to the backup remote with tracking set;
    /// individual failures are logged, not fatal.
    PushAllBranches { path: String },
    /// Pushes all tags to the backup remote; failures logged, not fatal.
    PushAllTags { path: String },
}

/// The argument vector a [`GitOp`] hands to the Git executable.
pub fn git_args(op: &GitOp) -> (r: Vec<String>)
    ensures
        match op {
            GitOp::Probe { path } => r.deep_view() == seq![
                "-C"@,
                path@,
                "rev-parse"@,
                "--is-inside-work-tree"@,
            ],
            GitOp::CloneRepo { src, dst } => r.deep_view() == seq!["clone"@, src@, dst@],
            GitOp::ConfigurePull { path } => r.deep_view() == seq![
                "-C"@,
                path@,
                "config"@,
                "pull.rebase"@,
                "false"@,
            ],
            GitOp::RestoreRemoteName { path } => r.deep_view() == seq![
                "-C"@,
                path@,
                "remote"@,
                "rename"@,
                "upstream"@,
                "origin"@,
            ],
            GitOp::PullCurrent { path } => r.deep_view() == seq!["-C"@, path@, "pull"@],
            GitOp::FetchAll { path } => r.deep_view() == seq![
                "-C"@,
                path@,
                "fetch"@,
                "--all"@,
            ],
            GitOp::ListBranches { path } => r.deep_view() == seq![
                "-C"@,
                path@,
                "branch"@,
                "-la"@,
            ],
            GitOp::DeleteBranch { path, branch } => r.deep_view() == seq![
                "-C"@,
                path@,
                "branch"@,
                "-D"@,
                branch@,
            ],
            GitOp::CreateTracking { path, branch } => r.deep_view() == seq![
                "-C"@,
                path@,
                "branch"@,
                "--track"@,
                branch@,
                "remotes/origin/"@ + branch@,
            ],
            GitOp::PullBranch { path, branch } => r.deep_view() == seq![
                "-C"@,
                path@,
                "pull"@,
                "origin"@,
                branch@,
            ],
            GitOp::RemoveBackupRemote { path } => r.deep_view() == seq![
                "-C"@,
                path@,
                "remote"@,
                "remove"@,
                "backup"@,
            ],
            GitOp::AddBackupRemote { path, url } => r.deep_view() == seq![
                "-C"@,
                path@,
                "remote"@,
                "add"@,
                "backup"@,
                url@,
            ],
            GitOp::PushAllBranches { path } => r.deep_view() == seq![
                "-C"@,
                path@,
                "push"@,
                "-u"@,
                "backup"@,
                "--all"@,
            ],
            GitOp::PushAllTags { path } => r.deep_view() == seq![
                "-C"@,
                path@,
                "push"@,
                "-u"@,
                "backup"@,
                "--tags"@,
            ],
        },
{
    let mut r: Vec<String> = Vec::new();
    match op {
        GitOp::Probe { path } => {
            r.push("-C".to_owned());
            r.push(path.clone());
            r.push("rev-parse".to_owned());
            r.push("--is-inside-work-tree".to_owned());
        },
        GitOp::CloneRepo { src, dst } => {
            r.push("clone".to_owned());
            r.push(src.clone());
            r.push(dst.clone());
        },
        GitOp::ConfigurePull { path } => {
            r.push("-C".to_owned());
            r.push(path.clone());
            r.push("config".to_owned());
            r.push("pull.rebase".to_owned());
            r.push("false".to_owned());
        },
        GitOp::RestoreRemoteName { path } => {
            r.push("-C".to_owned());
            r.push(path.clone());
            r.push("remote".to_owned());
            r.push("rename".to_owned());
            r.push("upstream".to_owned());
            r.push("origin".to_owned());
        },
        GitOp::PullCurrent { path } => {
            r.push("-C".to_owned());
            r.push(path.clone());
            r.push("pull".to_owned());
        },
        GitOp::FetchAll { path } => {
            r.push("-C".to_owned());
            r.push(path.clone());
            r.push("fetch".to_owned());
            r.push("--all".to_owned());
        },
        GitOp::ListBranches { path } => {
            r.push("-C".to_owned());
            r.push(path.clone());
            r.push("branch".to_owned());
            r.push("-la".to_owned());
        },
        GitOp::DeleteBranch { path, branch } => {
            r.push("-C".to_owned());
            r.push(path.clone());
            r.push("branch".to_owned());
            r.push("-D".to_owned());
            r.push(branch.clone());
        },
        GitOp::CreateTracking { path, branch } => {
            r.push("-C".to_owned());
            r.push(path.clone());
            r.push("branch".to_owned());
            r.push("--track".to_owned());
            r.push(branch.clone());
            let full = "remotes/origin/".to_owned().concat(branch.as_str());
            r.push(full);
        },
        GitOp::PullBranch { path, branch } => {
            r.push("-C".to_owned());
            r.push(path.clone());
            r.push("pull".to_owned());
            r.push("origin".to_owned());
            r.push(branch.clone());
        },
        GitOp::RemoveBackupRemote { path } => {
            r.push("-C".to_owned());
            r.push(path.clone());
            r.push("remote".to_owned());
            r.push("remove".to_owned());
            r.push("backup".to_owned());
        },
        GitOp::AddBackupRemote { path, url } => {
            r.push("-C".to_owned());
            r.push(path.clone());
            r.push("remote".to_owned());
            r.push("add".to_owned());
            r.push("backup".to_owned());
            r.push(url.clone());
        },
        GitOp::PushAllBranches { path } => {
            r.push("-C".to_owned());
            r.push(path.clone());
            r.push("push".to_owned());
            r.push("-u".to_owned());
            r.push("backup".to_owned());
            r.push("--all".to_owned());
        },
        GitOp::PushAllTags { path } => {
            r.push("-C".to_owned());
            r.push(path.clone());
            r.push("push".to_owned());
            r.push("-u".to_owned());
            r.push("backup".to_owned());
            r.push("--tags".to_owned());
        },
    }
    proof {
        match op {
            GitOp::Probe { path } => {
                assert(r.deep_view() =~= seq![
                    "-C"@,
                    path@,
                    "rev-parse"@,
                    "--is-inside-work-tree"@,
                ]);
            },
            GitOp::CloneRepo { src, dst } => {
                assert(r.deep_view() =~= seq!["clone"@, src@, dst@]);
            },
            GitOp::ConfigurePull { path } => {
                assert(r.deep_view() =~= seq!["-C"@, path@, "config"@, "pull.rebase"@, "false"@]);
            },
            GitOp::RestoreRemoteName { path } => {
                assert(r.deep_view() =~= seq![
                    "-C"@,
                    path@,
                    "remote"@,
                    "rename"@,
                    "upstream"@,
                    "origin"@,
                ]);
            },
            GitOp::PullCurrent { path } => {
                assert(r.deep_view() =~= seq!["-C"@, path@, "pull"@]);
            },
            GitOp::FetchAll { path } => {
                assert(r.deep_view() =~= seq!["-C"@, path@, "fetch"@, "--all"@]);
            },
            GitOp::ListBranches { path } => {
                assert(r.deep_view() =~= seq!["-C"@, path@, "branch"@, "-la"@]);
            },
            GitOp::DeleteBranch { path, branch } => {
                assert(r.deep_view() =~= seq!["-C"@, path@, "branch"@, "-D"@, branch@]);
            },
            GitOp::CreateTracking { path, branch } => {
                assert(r.deep_view() =~= seq![
                    "-C"@,
                    path@,
                    "branch"@,
                    "--track"@,
                    branch@,
                    "remotes/origin/"@ + branch@,
                ]);
            },
            GitOp::PullBranch { path, branch } => {
                assert(r.deep_view() =~= seq!["-C"@, path@, "pull"@, "origin"@, branch@]);
            },
            GitOp::RemoveBackupRemote { path } => {
                assert(r.deep_view() =~= seq!["-C"@, path@, "remote"@, "remove"@, "backup"@]);
            },
            GitOp::AddBackupRemote { path, url } => {
                assert(r.deep_view() =~= seq![
                    "-C"@,
                    path@,
                    "remote"@,
                    "add"@,
                    "backup"@,
                    url@,
                ]);
            },
            GitOp::PushAllBranches { path } => {
                assert(r.deep_view() =~= seq!["-C"@, path@, "push"@, "-u"@, "backup"@, "--all"@]);
            },
            GitOp::PushAllTags { path } => {
                assert(r.deep_view() =~= seq!["-C"@, path@, "push"@, "-u"@, "backup"@, "--tags"@]);
            },
        }
    }
    r
}

/// The classified contents of a `branch -la` listing.
pub ghost struct BranchesV {
    /// Local branches other than the checked-out one.
    pub locals: Seq<Seq<char>>,
    /// Remote-tracking branch names, shorn of their prefix.
    pub remotes: Seq<Seq<char>>,
    /// The branch marked current with `*`, when one is listed.
    pub current: Option<Seq<char>>,
}

/// Folds one raw listing line into the classification: blank lines, the
/// remote HEAD pointer and backup-remote entries are dropped; remote
/// tracking entries are collected under their bare name; the starred
/// line names the current branch; everything else is a plain local
/// branch.
pub open spec fn spec_branch_step(acc: BranchesV, raw_line: Seq<char>) -> BranchesV {
    let t = spec_trim(raw_line);
    if t.len() == 0 {
        acc
    } else if spec_starts_with(t, "remotes/origin/HEAD"@) {
        acc
    } else if spec_starts_with(t, "remotes/backup"@) {
        acc
    } else if spec_starts_with(t, "remotes/origin/"@) {
        BranchesV {
            remotes: acc.remotes.push(t.skip("remotes/origin/"@.len() as int)),
            ..acc
        }
    } else if t[0] == '*' {
        BranchesV { current: Some(spec_trim(t.skip(1))), ..acc }
    } else {
        BranchesV { locals: acc.locals.push(t), ..acc }
    }
}

/// The classification of a whole listing, line by line; a later starred
/// line wins.
pub open spec fn spec_branches(lines: Seq<Seq<char>>) -> BranchesV
    decreases lines.len(),
{
    if lines.len() == 0 {
        BranchesV { locals: Seq::empty(), remotes: Seq::empty(), current: None }
    } else {
        spec_branch_step(spec_branches(lines.drop_last()), lines.last())
    }
}

/// The classification of raw `branch -la` output.
pub open spec fn spec_listing(out: Seq<char>) -> BranchesV {
    spec_branches(spec_split(out, '\n'))
}

/// The parsed branch listing of one working tree.
pub struct BranchListing {
    /// Local branches other than the checked-out one.
    pub locals: Vec<String>,
    /// Remote-tracking branch names, shorn of their prefix.
    pub remotes: Vec<String>,
    /// The branch marked current with `*`, when one was listed.
    pub current: Option<String>,
}

impl BranchListing {
    /// The mathematical value of the listing.
    pub open spec fn lview(&self) -> BranchesV {
        BranchesV {
            locals: self.locals.deep_view(),
            remotes: self.remotes.deep_view(),
            current: self.current.deep_view(),
        }
    }
}

/// Parses `branch -la` output into local branches, remote-tracking
/// branches and the current branch.
pub fn parse_branch_listing(out: &str) -> (r: BranchListing)
    ensures
        r.lview() == spec_listing(out@),
{
    let lines = split_by(out, '\n');
    let ghost lv = lines.deep_view();
    let mut locals: Vec<String> = Vec::new();
    let mut remotes: Vec<String> = Vec::new();
    let mut current: Option<String> = None;
    let mut i: usize = 0;
    let n = lines.len();
    proof {
        reveal_strlit("remotes/origin/");
        assert(locals.deep_view() =~= Seq::<Seq<char>>::empty());
        assert(remotes.deep_view() =~= Seq::<Seq<char>>::empty());
        assert(lv.take(0) =~= Seq::<Seq<char>>::empty());
    }
    while i < n
        invariant
            lv == lines.deep_view(),
            n == lines@.len(),
            i <= n,
            "remotes/origin/"@.len() == 15,
            (BranchesV {
                locals: locals.deep_view(),
                remotes: remotes.deep_view(),
                current: current.deep_view(),
            }) == spec_branches(lv.take(i as int)),
        decreases n - i,
    {
        let ghost prev = BranchesV {
            locals: locals.deep_view(),
            remotes: remotes.deep_view(),
            current: current.deep_view(),
        };
        proof {
            assert(lv.take(i + 1).drop_last() =~= lv.take(i as int));
            assert(lv.take(i + 1).last() == lv[i as int]);
            assert(lv[i as int] == lines@[i as int]@);
        }
        let t = trim_str(lines[i].as_str());
        let tn = t.as_str().unicode_len();
        if tn == 0 {
            // a blank line adds nothing
        } else if str_starts_with(t.as_str(), "remotes/origin/HEAD") {
            // the remote HEAD pointer is not a branch
        } else if str_starts_with(t.as_str(), "remotes/backup") {
            // entries of the backup remote are this engine's own work
        } else if str_starts_with(t.as_str(), "remotes/origin/") {
            let ghost old_remotes = remotes.deep_view();
            let name = t.as_str().substring_char(15, tn);
            remotes.push(name.to_owned());
            proof {
                assert(name@ == t@.skip(15));
                assert(remotes.deep_view() =~= old_remotes.push(t@.skip(
                    "remotes/origin/"@.len() as int,
                )));
            }
        } else if t.as_str().get_char(0) == '*' {
            let rest = t.as_str().substring_char(1, tn);
            proof {
                assert(rest@ == t@.skip(1));
            }
            let name = trim_str(rest);
            current = Some(name);
        } else {
            let ghost old_locals = locals.deep_view();
            locals.push(t);
            proof {
                assert(locals.deep_view() =~= old_locals.push(spec_trim(lv[i as int])));
            }
        }
        i += 1;
    }
    proof {
        assert(lv.take(n as int) =~= lv);
    }
    BranchListing { locals, remotes, current }
}

/// The local branches reconciliation deletes: those no longer present in
/// the remote's tracking set — never the default branch.
pub open spec fn spec_deletions(
    locals: Seq<Seq<char>>,
    remotes: Seq<Seq<char>>,
    default_branch: Seq<char>,
) -> Seq<Seq<char>> {
    locals.filter(|b: Seq<char>| b != default_branch && !remotes.contains(b))
}

/// The remote-tracking branches reconciliation mirrors locally: those
/// without a local branch yet, except the default, which the clone
/// already tracks.
pub open spec fn spec_creations(
    locals: Seq<Seq<char>>,
    remotes: Seq<Seq<char>>,
    default_branch: Seq<char>,
) -> Seq<Seq<char>> {
    remotes.filter(|b: Seq<char>| b != default_branch && !locals.contains(b))
}

/// The branch marked default/current is never a deletion candidate,
/// whatever local and remote branch sets two sync runs left behind.
pub proof fn lemma_default_never_deleted(
    locals: Seq<Seq<char>>,
    remotes: Seq<Seq<char>>,
    default_branch: Seq<char>,
)
    ensures
        !spec_deletions(locals, remotes, default_branch).contains(default_branch),
    decreases locals.len(),
{
    reveal(Seq::filter);
    let out = spec_deletions(locals, remotes, default_branch);
    if locals.len() > 0 {
        lemma_default_never_deleted(locals.drop_last(), remotes, default_branch);
        let prev = spec_deletions(locals.drop_last(), remotes, default_branch);
        let x = locals.last();
        if x != default_branch && !remotes.contains(x) {
            assert(out == prev.push(x));
            if out.contains(default_branch) {
                let i = choose|i: int| 0 <= i < out.len() && out[i] == default_branch;
                if i < prev.len() {
                    assert(prev[i] == default_branch);
                    assert(prev.contains(default_branch));
                } else {
                    assert(out[i] == x);
                }
                assert(false);
            }
        } else {
            assert(out == prev);
        }
    }
}

proof fn lemma_deletions_empty(
    locals: Seq<Seq<char>>,
    remotes: Seq<Seq<char>>,
    default_branch: Seq<char>,
)
    requires
        forall|i: int|
            0 <= i < locals.len() ==> (#[trigger] locals[i]) == default_branch
                || remotes.contains(locals[i]),
    ensures
        spec_deletions(locals, remotes, default_branch).len() == 0,
    decreases locals.len(),
{
    reveal(Seq::filter);
    if locals.len() > 0 {
        assert forall|i: int| 0 <= i < locals.drop_last().len() implies (
        #[trigger] locals.drop_last()[i]) == default_branch || remotes.contains(
            locals.drop_last()[i],
        ) by {
            assert(locals.drop_last()[i] == locals[i]);
        }
        lemma_deletions_empty(locals.drop_last(), remotes, default_branch);
        assert(locals[locals.len() - 1] == default_branch || remotes.contains(locals.last()));
    }
}

proof fn lemma_creations_empty(
    locals: Seq<Seq<char>>,
    remotes: Seq<Seq<char>>,
    default_branch: Seq<char>,
)
    requires
        forall|i: int|
            0 <= i < remotes.len() ==> (#[trigger] remotes[i]) == default_branch
                || locals.contains(remotes[i]),
    ensures
        spec_creations(locals, remotes, default_branch).len() == 0,
    decreases remotes.len(),
{
    reveal(Seq::filter);
    if remotes.len() > 0 {
        assert forall|i: int| 0 <= i < remotes.drop_last().len() implies (
        #[trigger] remotes.drop_last()[i]) == default_branch || locals.contains(
            remotes.drop_last()[i],
        ) by {
            assert(remotes.drop_last()[i] == remotes[i]);
        }
        lemma_creations_empty(locals, remotes.drop_last(), default_branch);
        assert(remotes[remotes.len() - 1] == default_branch || locals.contains(remotes.last()));
    }
}

/// When the local and remote branch sets already agree apart from the
/// default branch, reconciliation plans no deletion and no creation:
/// a second run over an unchanged upstream does nothing.
pub proof fn lemma_second_run_plans_nothing(
    locals: Seq<Seq<char>>,
    remotes: Seq<Seq<char>>,
    default_branch: Seq<char>,
)
    requires
        forall|b: Seq<char>| locals.contains(b) && b != default_branch ==> remotes.contains(b),
        forall|b: Seq<char>| remotes.contains(b) && b != default_branch ==> locals.contains(b),
    ensures
        spec_deletions(locals, remotes, default_branch) == Seq::<Seq<char>>::empty(),
        spec_creations(locals, remotes, default_branch) == Seq::<Seq<char>>::empty(),
{
    assert forall|i: int| 0 <= i < locals.len() implies (#[trigger] locals[i]) == default_branch
        || remotes.contains(locals[i]) by {
        if locals[i] != default_branch {
            assert(locals.contains(locals[i]));
        }
    }
    lemma_deletions_empty(locals, remotes, default_branch);
    assert(spec_deletions(locals, remotes, default_branch) =~= Seq::<Seq<char>>::empty());
    assert forall|i: int| 0 <= i < remotes.len() implies (#[trigger] remotes[i]) == default_branch
        || locals.contains(remotes[i]) by {
        if remotes[i] != default_branch {
            assert(remotes.contains(remotes[i]));
        }
    }
    lemma_creations_empty(locals, remotes, default_branch);
    assert(spec_creations(locals, remotes, default_branch) =~= Seq::<Seq<char>>::empty());
}

/// Whether one of the texts in `v` is exactly `x`.
fn contains_str(v: &Vec<String>, x: &str) -> (r: bool)
    ensures
        r == v.deep_view().contains(x@),
{
    let ghost vv = v.deep_view();
    let mut i: usize = 0;
    let n = v.len();
    while i < n
        invariant
            vv == v.deep_view(),
            n == v@.len(),
            i <= n,
            forall|j: int| 0 <= j < i ==> vv[j] != x@,
        decreases n - i,
    {
        if str_eq(v[i].as_str(), x) {
            assert(vv[i as int] == x@);
            return true;
        }
        i += 1;
    }
    false
}

/// The branch bookkeeping of one reconciliation: what to delete and what
/// to start tracking.
pub struct SyncPlan {
    /// Local branches to delete, in listing order.
    pub delete: Vec<String>,
    /// Remote branches to create local tracking branches for, in listing
    /// order.
    pub create: Vec<String>,
}

/// Partitions the listed branches into deletions and creations around
/// the default branch.
pub fn plan_update(locals: &Vec<String>, remotes: &Vec<String>, default_branch: &str) -> (r:
    SyncPlan)
    ensures
        r.delete.deep_view() == spec_deletions(
            locals.deep_view(),
            remotes.deep_view(),
            default_branch@,
        ),
        r.create.deep_view() == spec_creations(
            locals.deep_view(),
            remotes.deep_view(),
            default_branch@,
        ),
{
    let ghost lv = locals.deep_view();
    let ghost rv = remotes.deep_view();
    let ghost pred_del = |b: Seq<char>| b != default_branch@ && !rv.contains(b);
    let mut delete: Vec<String> = Vec::new();
    let mut i: usize = 0;
    let n = locals.len();
    while i < n
        invariant
            lv == locals.deep_view(),
            rv == remotes.deep_view(),
            n == locals@.len(),
            i <= n,
            pred_del == (|b: Seq<char>| b != default_branch@ && !rv.contains(b)),
            delete.deep_view() == lv.take(i as int).filter(pred_del),
        decreases n - i,
    {
        proof {
            reveal(Seq::filter);
            assert(lv.take(i + 1).drop_last() =~= lv.take(i as int));
            assert(lv.take(i + 1).last() == lv[i as int]);
            assert(lv[i as int] == locals@[i as int]@);
        }
        let b = &locals[i];
        if !str_eq(b.as_str(), default_branch) && !contains_str(remotes, b.as_str()) {
            let ghost old_delete = delete.deep_view();
            delete.push(b.clone());
            proof {
                assert(delete.deep_view() =~= old_delete.push(lv[i as int]));
            }
        }
        i += 1;
    }
    proof {
        assert(lv.take(n as int) =~= lv);
    }
    let ghost pred_new = |b: Seq<char>| b != default_branch@ && !lv.contains(b);
    let mut create: Vec<String> = Vec::new();
    let mut i: usize = 0;
    let m = remotes.len();
    while i < m
        invariant
            lv == locals.deep_view(),
            rv == remotes.deep_view(),
            m == remotes@.len(),
            i <= m,
            pred_new == (|b: Seq<char>| b != default_branch@ && !lv.contains(b)),
            create.deep_view() == rv.take(i as int).filter(pred_new),
        decreases m - i,
    {
        proof {
            reveal(Seq::filter);
            assert(rv.take(i + 1).drop_last() =~= rv.take(i as int));
            assert(rv.take(i + 1).last() == rv[i as int]);
            assert(rv[i as int] == remotes@[i as int]@);
        }
        let b = &remotes[i];
        if !str_eq(b.as_str(), default_branch) && !contains_str(locals, b.as_str()) {
            let ghost old_create = create.deep_view();
            create.push(b.clone());
            proof {
                assert(create.deep_view() =~= old_create.push(rv[i as int]));
            }
        }
        i += 1;
    }
    proof {
        assert(rv.take(m as int) =~= rv);
    }
    SyncPlan { delete, create }
}


/// The per-repository sync state machine: probe, clone if absent,
/// restore the legacy remote name, then either a plain pull
/// (default-branch-only mode) or fetch, list, reconcile and pull.
pub enum SyncPhase {
    /// Check whether the path is a working tree.
    Probe,
    /// Clone the remote fresh into the path.
    CloneStep,
    /// Configure non-rebasing pulls in the fresh clone.
    ConfigStep,
    /// Rename a legacy `upstream` remote back to `origin`.
    RestoreStep,
    /// Pull the checked-out branch and stop (default-branch-only mode).
    SimplePull,
    /// Fetch all remote refs.
    FetchStep,
    /// List local and remote-tracking branches.
    ListStep,
    /// Work through the reconciliation plan, then pull the default
    /// branch.
    Apply {
        delete: Vec<String>,
        create: Vec<String>,
        default_branch: String,
        di: usize,
        ci: usize,
    },
    /// The repository is in sync.
    Synced,
    /// A Git operation failed; the machine stops here.
    Halted,
}

/// What one reported result means for the caller's loop.
#[derive(Debug)]
pub enum SyncStepResult {
    /// Keep going: ask for the next operation.
    Progress,
    /// The repository is in sync.
    Finished,
    /// The sync failed with this error.
    Failed(MirrorError),
}

/// One repository's reconciliation against its source remote.
pub struct SyncMachine {
    /// The local working tree.
    pub path: String,
    /// The remote URL the repository is pulled from.
    pub src_url: String,
    /// Sync only the default branch, with no branch bookkeeping.
    pub only_default: bool,
    /// Where the machine stands.
    pub phase: SyncPhase,
}

/// The machine halted and reported the subprocess's captured stderr.
pub open spec fn spec_git_failure(m: SyncMachine, r: SyncStepResult, err: Seq<char>) -> bool {
    &&& m.phase is Halted
    &&& r matches SyncStepResult::Failed(e) && e matches MirrorError::GitOperation { stderr }
        && stderr@ == err
}

impl SyncMachine {
    /// In the reconciliation phase, the plan is within bounds and the
    /// default branch is not among the deletions.
    pub open spec fn wf(&self) -> bool {
        match self.phase {
            SyncPhase::Apply { delete, create, default_branch, di, ci } => {
                &&& di <= delete@.len()
                &&& ci <= create@.len()
                &&& forall|i: int|
                    0 <= i < delete.deep_view().len() ==> (#[trigger] delete.deep_view()[i])
                        != default_branch@
            },
            _ => true,
        }
    }

    /// The machine's configuration is unchanged.
    pub open spec fn same_repo(&self, other: &SyncMachine) -> bool {
        &&& self.path@ == other.path@
        &&& self.src_url@ == other.src_url@
        &&& self.only_default == other.only_default
    }

    /// Begins syncing the working tree at `path` from `src_url`.
    pub fn start(path: String, src_url: String, only_default: bool) -> (m: SyncMachine)
        ensures
            m.wf(),
            m.phase is Probe,
            m.path@ == path@,
            m.src_url@ == src_url@,
            m.only_default == only_default,
    {
        SyncMachine { path, src_url, only_default, phase: SyncPhase::Probe }
    }

    /// The next Git operation to run, or nothing when the machine is
    /// done or halted. A deletion is only ever requested for a branch
    /// other than the default.
    pub fn next_op(&self) -> (r: Option<GitOp>)
        requires
            self.wf(),
        ensures
            match self.phase {
                SyncPhase::Probe => r matches Some(op) && op matches GitOp::Probe { path }
                    && path@ == self.path@,
                SyncPhase::CloneStep => r matches Some(op) && op matches GitOp::CloneRepo {
                    src,
                    dst,
                } && src@ == self.src_url@ && dst@ == self.path@,
                SyncPhase::ConfigStep => r matches Some(op) && op matches GitOp::ConfigurePull {
                    path,
                } && path@ == self.path@,
                SyncPhase::RestoreStep => r matches Some(op) && op
                    matches GitOp::RestoreRemoteName { path } && path@ == self.path@,
                SyncPhase::SimplePull => r matches Some(op) && op matches GitOp::PullCurrent {
                    path,
                } && path@ == self.path@,
                SyncPhase::FetchStep => r matches Some(op) && op matches GitOp::FetchAll { path }
                    && path@ == self.path@,
                SyncPhase::ListStep => r matches Some(op) && op matches GitOp::ListBranches {
                    path,
                } && path@ == self.path@,
                SyncPhase::Apply { delete, create, default_branch, di, ci } => {
                    if di < delete@.len() {
                        r matches Some(op) && op matches GitOp::DeleteBranch { path, branch }
                            && path@ == self.path@ && branch@ == delete.deep_view()[di as int]
                            && branch@ != default_branch@
                    } else if ci < create@.len() {
                        r matches Some(op) && op matches GitOp::CreateTracking { path, branch }
                            && path@ == self.path@ && branch@ == create.deep_view()[ci as int]
                    } else {
                        r matches Some(op) && op matches GitOp::PullBranch { path, branch }
                            && path@ == self.path@ && branch@ == default_branch@
                    }
                },
                SyncPhase::Synced => r is None,
                SyncPhase::Halted => r is None,
            },
    {
        match &self.phase {
            SyncPhase::Probe => Some(GitOp::Probe { path: self.path.clone() }),
            SyncPhase::CloneStep => Some(
                GitOp::CloneRepo { src: self.src_url.clone(), dst: self.path.clone() },
            ),
            SyncPhase::ConfigStep => Some(GitOp::ConfigurePull { path: self.path.clone() }),
            SyncPhase::RestoreStep => Some(GitOp::RestoreRemoteName { path: self.path.clone() }),
            SyncPhase::SimplePull => Some(GitOp::PullCurrent { path: self.path.clone() }),
            SyncPhase::FetchStep => Some(GitOp::FetchAll { path: self.path.clone() }),
            SyncPhase::ListStep => Some(GitOp::ListBranches { path: self.path.clone() }),
            SyncPhase::Apply { delete, create, default_branch, di, ci } => {
                if *di < delete.len() {
                    Some(
                        GitOp::DeleteBranch {
                            path: self.path.clone(),
                            branch: delete[*di].clone(),
                        },
                    )
                } else if *ci < create.len() {
                    Some(
                        GitOp::CreateTracking {
                            path: self.path.clone(),
                            branch: create[*ci].clone(),
                        },
                    )
                } else {
                    Some(
                        GitOp::PullBranch {
                            path: self.path.clone(),
                            branch: default_branch.clone(),
                        },
                    )
                }
            },
            SyncPhase::Synced => None,
            SyncPhase::Halted => None,
        }
    }

    /// Consumes the outcome of the operation last asked for. Only the
    /// probe and the remote-name restoration tolerate failure; any other
    /// failing operation halts this repository's sync with the captured
    /// stderr.
    pub fn on_result(&mut self, ok: bool, stdout: &str, stderr: &str) -> (r: SyncStepResult)
        requires
            old(self).wf(),
        ensures
            final(self).wf(),
            final(self).same_repo(old(self)),
            match old(self).phase {
                SyncPhase::Probe => r is Progress && if ok {
                    final(self).phase is RestoreStep
                } else {
                    final(self).phase is CloneStep
                },
                SyncPhase::CloneStep => if ok {
                    final(self).phase is ConfigStep && r is Progress
                } else {
                    spec_git_failure(*final(self), r, stderr@)
                },
                SyncPhase::ConfigStep => if ok {
                    final(self).phase is RestoreStep && r is Progress
                } else {
                    spec_git_failure(*final(self), r, stderr@)
                },
                SyncPhase::RestoreStep => r is Progress && if old(self).only_default {
                    final(self).phase is SimplePull
                } else {
                    final(self).phase is FetchStep
                },
                SyncPhase::SimplePull => if ok {
                    final(self).phase is Synced && r is Finished
                } else {
                    spec_git_failure(*final(self), r, stderr@)
                },
                SyncPhase::FetchStep => if ok {
                    final(self).phase is ListStep && r is Progress
                } else {
                    spec_git_failure(*final(self), r, stderr@)
                },
                SyncPhase::ListStep => if ok {
                    ({
                        let b = spec_listing(stdout@);
                        match b.current {
                            Some(d) => r is Progress && (final(self).phase
                                matches SyncPhase::Apply {
                                delete,
                                create,
                                default_branch,
                                di,
                                ci,
                            } && {
                                &&& delete.deep_view() == spec_deletions(b.locals, b.remotes, d)
                                &&& create.deep_view() == spec_creations(b.locals, b.remotes, d)
                                &&& default_branch@ == d
                                &&& di == 0
                                &&& ci == 0
                            }),
                            None => spec_git_failure(
                                *final(self),
                                r,
                                "could not identify the current branch"@,
                            ),
                        }
                    })
                } else {
                    spec_git_failure(*final(self), r, stderr@)
                },
                SyncPhase::Apply { delete, create, default_branch, di, ci } => if ok {
                    if di < delete@.len() {
                        r is Progress && (final(self).phase matches SyncPhase::Apply {
                            delete: d2,
                            create: c2,
                            default_branch: db2,
                            di: di2,
                            ci: ci2,
                        } && {
                            &&& d2.deep_view() == delete.deep_view()
                            &&& c2.deep_view() == create.deep_view()
                            &&& db2@ == default_branch@
                            &&& di2 == di + 1
                            &&& ci2 == ci
                        })
                    } else if ci < create@.len() {
                        r is Progress && (final(self).phase matches SyncPhase::Apply {
                            delete: d2,
                            create: c2,
                            default_branch: db2,
                            di: di2,
                            ci: ci2,
                        } && {
                            &&& d2.deep_view() == delete.deep_view()
                            &&& c2.deep_view() == create.deep_view()
                            &&& db2@ == default_branch@
                            &&& di2 == di
                            &&& ci2 == ci + 1
                        })
                    } else {
                        final(self).phase is Synced && r is Finished
                    }
                } else {
                    spec_git_failure(*final(self), r, stderr@)
                },
                SyncPhase::Synced => final(self).phase is Synced && r is Progress,
                SyncPhase::Halted => final(self).phase is Halted && r is Progress,
            },
    {
        let mut phase = SyncPhase::Halted;
        core::mem::swap(&mut phase, &mut self.phase);
        match phase {
            SyncPhase::Probe => {
                self.phase = if ok {
                    SyncPhase::RestoreStep
                } else {
                    SyncPhase::CloneStep
                };
                SyncStepResult::Progress
            },
            SyncPhase::CloneStep => {
                if ok {
                    self.phase = SyncPhase::ConfigStep;
                    SyncStepResult::Progress
                } else {
                    self.fail(stderr)
                }
            },
            SyncPhase::ConfigStep => {
                if ok {
                    self.phase = SyncPhase::RestoreStep;
                    SyncStepResult::Progress
                } else {
                    self.fail(stderr)
                }
            },
            SyncPhase::RestoreStep => {
                self.phase = if self.only_default {
                    SyncPhase::SimplePull
                } else {
                    SyncPhase::FetchStep
                };
                SyncStepResult::Progress
            },
            SyncPhase::SimplePull => {
                if ok {
                    self.phase = SyncPhase::Synced;
                    SyncStepResult::Finished
                } else {
                    self.fail(stderr)
                }
            },
            SyncPhase::FetchStep => {
                if ok {
                    self.phase = SyncPhase::ListStep;
                    SyncStepResult::Progress
                } else {
                    self.fail(stderr)
                }
            },
            SyncPhase::ListStep => {
                if ok {
                    let listing = parse_branch_listing(stdout);
                    match listing.current {
                        Some(default_branch) => {
                            let plan = plan_update(
                                &listing.locals,
                                &listing.remotes,
                                default_branch.as_str(),
                            );
                            proof {
                                lemma_default_never_deleted(
                                    listing.locals.deep_view(),
                                    listing.remotes.deep_view(),
                                    default_branch@,
                                );
                                crate::gitsync::lemma_deletions_all_differ(
                                    listing.locals.deep_view(),
                                    listing.remotes.deep_view(),
                                    default_branch@,
                                );
                            }
                            self.phase = SyncPhase::Apply {
                                delete: plan.delete,
                                create: plan.create,
                                default_branch,
                                di: 0,
                                ci: 0,
                            };
                            SyncStepResult::Progress
                        },
                        None => {
                            self.phase = SyncPhase::Halted;
                            SyncStepResult::Failed(
                                MirrorError::GitOperation {
                                    stderr: "could not identify the current branch".to_owned(),
                                },
                            )
                        },
                    }
                } else {
                    self.fail(stderr)
                }
            },
            SyncPhase::Apply { delete, create, default_branch, di, ci } => {
                if ok {
                    if di < delete.len() {
                        self.phase = SyncPhase::Apply {
                            delete,
                            create,
                            default_branch,
                            di: di + 1,
                            ci,
                        };
                        SyncStepResult::Progress
                    } else if ci < create.len() {
                        self.phase = SyncPhase::Apply {
                            delete,
                            create,
                            default_branch,
                            di,
                            ci: ci + 1,
                        };
                        SyncStepResult::Progress
                    } else {
                        self.phase = SyncPhase::Synced;
                        SyncStepResult::Finished
                    }
                } else {
                    self.fail(stderr)
                }
            },
            SyncPhase::Synced => {
                self.phase = SyncPhase::Synced;
                SyncStepResult::Progress
            },
            SyncPhase::Halted => {
                self.phase = SyncPhase::Halted;
                SyncStepResult::Progress
            },
        }
    }

    /// Halts the machine with the subprocess's captured stderr.
    fn fail(&mut self, stderr: &str) -> (r: SyncStepResult)
        ensures
            final(self).path@ == old(self).path@,
            final(self).src_url@ == old(self).src_url@,
            final(self).only_default == old(self).only_default,
            spec_git_failure(*final(self), r, stderr@),
    {
        self.phase = SyncPhase::Halted;
        SyncStepResult::Failed(MirrorError::GitOperation { stderr: stderr.to_owned() })
    }
}

/// Every planned deletion differs from the default branch.
proof fn lemma_deletions_all_differ(
    locals: Seq<Seq<char>>,
    remotes: Seq<Seq<char>>,
    default_branch: Seq<char>,
)
    ensures
        forall|i: int|
            0 <= i < spec_deletions(locals, remotes, default_branch).len() ==> (
            #[trigger] spec_deletions(locals, remotes, default_branch)[i]) != default_branch,
    decreases locals.len(),
{
    reveal(Seq::filter);
    let out = spec_deletions(locals, remotes, default_branch);
    if locals.len() > 0 {
        lemma_deletions_all_differ(locals.drop_last(), remotes, default_branch);
        let prev = spec_deletions(locals.drop_last(), remotes, default_branch);
        let x = locals.last();
        if x != default_branch && !remotes.contains(x) {
            assert(out == prev.push(x));
        } else {
            assert(out == prev);
        }
    }
}

/// The push half: point the backup remote at the destination and push
/// every branch and tag. A stale remote's removal and the pushes
/// themselves tolerate failure; only adding the remote is fatal.
pub enum PushPhase {
    /// Drop a stale backup remote, tolerating failure.
    RemoveOld,
    /// Add the backup remote at the destination URL.
    AddRemote,
    /// Push all branches with upstream tracking set.
    PushBranches,
    /// Push all tags.
    PushTags,
    /// Everything was pushed (individual ref failures logged).
    Done,
    /// Adding the remote failed; the machine stops here.
    Halted,
}

/// One repository's push to the backup remote.
pub struct PushMachine {
    /// The local working tree.
    pub path: String,
    /// The resolved destination URL.
    pub remote_url: String,
    /// Where the machine stands.
    pub phase: PushPhase,
}

impl PushMachine {
    /// The machine's configuration is unchanged.
    pub open spec fn same_repo(&self, other: &PushMachine) -> bool {
        &&& self.path@ == other.path@
        &&& self.remote_url@ == other.remote_url@
    }

    /// Begins pushing the working tree at `path` to `remote_url`.
    pub fn start(path: String, remote_url: String) -> (m: PushMachine)
        ensures
            m.phase is RemoveOld,
            m.path@ == path@,
            m.remote_url@ == remote_url@,
    {
        PushMachine { path, remote_url, phase: PushPhase::RemoveOld }
    }

    /// The next Git operation to run, or nothing when the push is done
    /// or halted.
    pub fn next_op(&self) -> (r: Option<GitOp>)
        ensures
            match self.phase {
                PushPhase::RemoveOld => r matches Some(op) && op
                    matches GitOp::RemoveBackupRemote { path } && path@ == self.path@,
                PushPhase::AddRemote => r matches Some(op) && op matches GitOp::AddBackupRemote {
                    path,
                    url,
                } && path@ == self.path@ && url@ == self.remote_url@,
                PushPhase::PushBranches => r matches Some(op) && op
                    matches GitOp::PushAllBranches { path } && path@ == self.path@,
                PushPhase::PushTags => r matches Some(op) && op matches GitOp::PushAllTags { path }
                    && path@ == self.path@,
                PushPhase::Done => r is None,
                PushPhase::Halted => r is None,
            },
    {
        match &self.phase {
            PushPhase::RemoveOld => Some(GitOp::RemoveBackupRemote { path: self.path.clone() }),
            PushPhase::AddRemote => Some(
                GitOp::AddBackupRemote { path: self.path.clone(), url: self.remote_url.clone() },
            ),
            PushPhase::PushBranches => Some(GitOp::PushAllBranches { path: self.path.clone() }),
            PushPhase::PushTags => Some(GitOp::PushAllTags { path: self.path.clone() }),
            PushPhase::Done => None,
            PushPhase::Halted => None,
        }
    }

    /// Consumes the outcome of the operation last asked for. Removing a
    /// stale remote and the pushes tolerate failure; a failing remote
    /// addition halts the push.
    pub fn on_result(&mut self, ok: bool, stderr: &str) -> (r: SyncStepResult)
        ensures
            final(self).same_repo(old(self)),
            match old(self).phase {
                PushPhase::RemoveOld => final(self).phase is AddRemote && r is Progress,
                PushPhase::AddRemote => if ok {
                    final(self).phase is PushBranches && r is Progress
                } else {
                    &&& final(self).phase is Halted
                    &&& r matches SyncStepResult::Failed(e) && e matches MirrorError::GitOperation {
                        stderr: s,
                    } && s@ == stderr@
                },
                PushPhase::PushBranches => final(self).phase is PushTags && r is Progress,
                PushPhase::PushTags => final(self).phase is Done && r is Finished,
                PushPhase::Done => final(self).phase is Done && r is Progress,
                PushPhase::Halted => final(self).phase is Halted && r is Progress,
            },
    {
        match &self.phase {
            PushPhase::RemoveOld => {
                self.phase = PushPhase::AddRemote;
                SyncStepResult::Progress
            },
            PushPhase::AddRemote => {
                if ok {
                    self.phase = PushPhase::PushBranches;
                    SyncStepResult::Progress
                } else {
                    self.phase = PushPhase::Halted;
                    SyncStepResult::Failed(
                        MirrorError::GitOperation { stderr: stderr.to_owned() },
                    )
                }
            },
            PushPhase::PushBranches => {
                self.phase = PushPhase::PushTags;
                SyncStepResult::Progress
            },
            PushPhase::PushTags => {
                self.phase = PushPhase::Done;
                SyncStepResult::Finished
            },
            PushPhase::Done => {
                self.phase = PushPhase::Done;
                SyncStepResult::Progress
            },
            PushPhase::Halted => {
                self.phase = PushPhase::Halted;
                SyncStepResult::Progress
            },
        }
    }
}

} // verus!
