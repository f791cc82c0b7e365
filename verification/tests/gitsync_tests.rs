use gitlobster::errors::MirrorError;
use gitlobster::gitsync::{
    git_args, parse_branch_listing, plan_update, GitOp, PushMachine, SyncMachine,
    SyncStepResult,
};

fn args(op: &GitOp) -> Vec<String> {
    git_args(op)
}

#[test]
fn branch_listing_is_classified() {
    let out = "* main\n  old-branch\n  remotes/origin/HEAD -> origin/main\n  remotes/origin/main\n  remotes/origin/feature-x\n  remotes/backup/main\n";
    let listing = parse_branch_listing(out);
    assert_eq!(listing.current.as_deref(), Some("main"));
    assert_eq!(listing.locals, vec!["old-branch".to_string()]);
    assert_eq!(
        listing.remotes,
        vec!["main".to_string(), "feature-x".to_string()]
    );
}

#[test]
fn branch_listing_without_current() {
    let listing = parse_branch_listing("  a\n  remotes/origin/b\n");
    assert!(listing.current.is_none());
    assert_eq!(listing.locals, vec!["a".to_string()]);
    assert_eq!(listing.remotes, vec!["b".to_string()]);
}

#[test]
fn plan_partitions_branches() {
    let locals = vec!["old-branch".to_string(), "shared".to_string()];
    let remotes = vec!["main".to_string(), "feature-x".to_string(), "shared".to_string()];
    let plan = plan_update(&locals, &remotes, "main");
    assert_eq!(plan.delete, vec!["old-branch".to_string()]);
    assert_eq!(plan.create, vec!["feature-x".to_string()]);
}

#[test]
fn default_branch_is_never_deleted() {
    // Even a local branch named like the default that vanished upstream
    // stays: the default is no deletion candidate.
    let locals = vec!["main".to_string(), "gone".to_string()];
    let remotes: Vec<String> = vec![];
    let plan = plan_update(&locals, &remotes, "main");
    assert_eq!(plan.delete, vec!["gone".to_string()]);
    assert!(!plan.delete.contains(&"main".to_string()));
}

#[test]
fn identical_branch_sets_plan_nothing() {
    let locals = vec!["feature-x".to_string()];
    let remotes = vec!["main".to_string(), "feature-x".to_string()];
    let plan = plan_update(&locals, &remotes, "main");
    assert!(plan.delete.is_empty());
    assert!(plan.create.is_empty());
}

#[test]
fn git_argument_vectors() {
    assert_eq!(
        args(&GitOp::Probe { path: "p".to_string() }),
        vec!["-C", "p", "rev-parse", "--is-inside-work-tree"]
    );
    assert_eq!(
        args(&GitOp::CloneRepo { src: "u".to_string(), dst: "p".to_string() }),
        vec!["clone", "u", "p"]
    );
    assert_eq!(
        args(&GitOp::ConfigurePull { path: "p".to_string() }),
        vec!["-C", "p", "config", "pull.rebase", "false"]
    );
    assert_eq!(
        args(&GitOp::RestoreRemoteName { path: "p".to_string() }),
        vec!["-C", "p", "remote", "rename", "upstream", "origin"]
    );
    assert_eq!(
        args(&GitOp::DeleteBranch { path: "p".to_string(), branch: "b".to_string() }),
        vec!["-C", "p", "branch", "-D", "b"]
    );
    assert_eq!(
        args(&GitOp::CreateTracking { path: "p".to_string(), branch: "b".to_string() }),
        vec!["-C", "p", "branch", "--track", "b", "remotes/origin/b"]
    );
    assert_eq!(
        args(&GitOp::PullBranch { path: "p".to_string(), branch: "main".to_string() }),
        vec!["-C", "p", "pull", "origin", "main"]
    );
    assert_eq!(
        args(&GitOp::AddBackupRemote { path: "p".to_string(), url: "u".to_string() }),
        vec!["-C", "p", "remote", "add", "backup", "u"]
    );
    assert_eq!(
        args(&GitOp::PushAllBranches { path: "p".to_string() }),
        vec!["-C", "p", "push", "-u", "backup", "--all"]
    );
    assert_eq!(
        args(&GitOp::PushAllTags { path: "p".to_string() }),
        vec!["-C", "p", "push", "-u", "backup", "--tags"]
    );
}

/// A toy repository: branch sets instead of history.
#[derive(Clone)]
struct FakeRepo {
    cloned: bool,
    locals: Vec<String>,
    current: Option<String>,
    remotes: Vec<String>,
}

impl FakeRepo {
    fn listing(&self) -> String {
        let mut out = String::new();
        if let Some(cur) = &self.current {
            out.push_str(&format!("* {cur}\n"));
        }
        for b in &self.locals {
            out.push_str(&format!("  {b}\n"));
        }
        out.push_str("  remotes/origin/HEAD -> origin/main\n");
        for b in &self.remotes {
            out.push_str(&format!("  remotes/origin/{b}\n"));
        }
        out
    }
}

/// Runs one machine to completion against the toy repository and
/// returns every operation it issued.
fn run_sync(repo: &mut FakeRepo, only_default: bool) -> (Vec<String>, SyncStepResult) {
    let mut machine = SyncMachine::start("p".to_string(), "u".to_string(), only_default);
    let mut issued: Vec<String> = Vec::new();
    let mut last = SyncStepResult::Progress;
    while let Some(op) = machine.next_op() {
        let (ok, stdout) = match &op {
            GitOp::Probe { .. } => {
                issued.push("probe".to_string());
                (repo.cloned, String::new())
            },
            GitOp::CloneRepo { .. } => {
                issued.push("clone".to_string());
                repo.cloned = true;
                repo.current = Some("main".to_string());
                (true, String::new())
            },
            GitOp::ConfigurePull { .. } => {
                issued.push("config".to_string());
                (true, String::new())
            },
            GitOp::RestoreRemoteName { .. } => {
                issued.push("rename".to_string());
                (false, String::new())
            },
            GitOp::PullCurrent { .. } => {
                issued.push("pull".to_string());
                (true, String::new())
            },
            GitOp::FetchAll { .. } => {
                issued.push("fetch".to_string());
                (true, String::new())
            },
            GitOp::ListBranches { .. } => {
                issued.push("list".to_string());
                (true, repo.listing())
            },
            GitOp::DeleteBranch { branch, .. } => {
                issued.push(format!("delete {branch}"));
                repo.locals.retain(|b| b != branch);
                (true, String::new())
            },
            GitOp::CreateTracking { branch, .. } => {
                issued.push(format!("track {branch}"));
                repo.locals.push(branch.clone());
                (true, String::new())
            },
            GitOp::PullBranch { branch, .. } => {
                issued.push(format!("pull {branch}"));
                (true, String::new())
            },
            other => panic!("unexpected operation {:?}", args(other)),
        };
        last = machine.on_result(ok, stdout.as_str(), "");
        if matches!(last, SyncStepResult::Failed(_)) {
            break;
        }
    }
    (issued, last)
}

#[test]
fn fresh_clone_then_reconcile() {
    let mut repo = FakeRepo {
        cloned: false,
        locals: vec!["stale".to_string()],
        current: None,
        remotes: vec!["main".to_string(), "feature-x".to_string()],
    };
    let (issued, last) = run_sync(&mut repo, false);
    assert!(matches!(last, SyncStepResult::Finished));
    assert_eq!(
        issued,
        vec![
            "probe",
            "clone",
            "config",
            "rename",
            "fetch",
            "list",
            "delete stale",
            "track feature-x",
            "pull main",
        ]
    );
}

#[test]
fn second_sync_run_changes_nothing() {
    let mut repo = FakeRepo {
        cloned: false,
        locals: vec![],
        current: None,
        remotes: vec!["main".to_string(), "feature-x".to_string()],
    };
    let (_, first) = run_sync(&mut repo, false);
    assert!(matches!(first, SyncStepResult::Finished));
    let branches_after_first = repo.locals.clone();

    // With no upstream change, the second run deletes and creates
    // nothing and leaves the branch set as it was.
    let (issued, last) = run_sync(&mut repo, false);
    assert!(matches!(last, SyncStepResult::Finished));
    assert!(issued.iter().all(|op| !op.starts_with("delete") && !op.starts_with("track")));
    assert_eq!(repo.locals, branches_after_first);
}

#[test]
fn default_survives_arbitrary_remote_changes() {
    // Branches come and go upstream between runs; the checked-out
    // default branch is deleted in none of them.
    let mut repo = FakeRepo {
        cloned: false,
        locals: vec![],
        current: None,
        remotes: vec!["main".to_string(), "a".to_string(), "b".to_string()],
    };
    let (_, r) = run_sync(&mut repo, false);
    assert!(matches!(r, SyncStepResult::Finished));

    repo.remotes = vec!["main".to_string(), "c".to_string()];
    let (issued, r) = run_sync(&mut repo, false);
    assert!(matches!(r, SyncStepResult::Finished));
    assert!(issued.iter().all(|op| op != "delete main"));
    assert!(issued.contains(&"delete a".to_string()));
    assert!(issued.contains(&"delete b".to_string()));
    assert!(issued.contains(&"track c".to_string()));

    repo.remotes = vec![];
    let (issued, r) = run_sync(&mut repo, false);
    assert!(matches!(r, SyncStepResult::Finished));
    assert!(issued.iter().all(|op| op != "delete main"));
    assert_eq!(repo.current.as_deref(), Some("main"));
}

#[test]
fn default_branch_only_mode_pulls_and_stops() {
    let mut repo = FakeRepo {
        cloned: true,
        locals: vec![],
        current: Some("main".to_string()),
        remotes: vec!["main".to_string()],
    };
    let (issued, last) = run_sync(&mut repo, true);
    assert!(matches!(last, SyncStepResult::Finished));
    assert_eq!(issued, vec!["probe", "rename", "pull"]);
}

#[test]
fn failing_fetch_halts_with_stderr() {
    let mut machine = SyncMachine::start("p".to_string(), "u".to_string(), false);
    // probe ok, rename tolerated, then the fetch fails
    assert!(matches!(machine.next_op(), Some(GitOp::Probe { .. })));
    machine.on_result(true, "", "");
    assert!(matches!(machine.next_op(), Some(GitOp::RestoreRemoteName { .. })));
    machine.on_result(false, "", "no upstream remote");
    assert!(matches!(machine.next_op(), Some(GitOp::FetchAll { .. })));
    let r = machine.on_result(false, "", "network unreachable");
    match r {
        SyncStepResult::Failed(MirrorError::GitOperation { stderr }) => {
            assert_eq!(stderr, "network unreachable");
        },
        other => panic!("expected a git failure, got {other:?}"),
    }
    assert!(machine.next_op().is_none());
}

#[test]
fn listing_without_current_branch_fails() {
    let mut machine = SyncMachine::start("p".to_string(), "u".to_string(), false);
    machine.on_result(true, "", ""); // probe
    machine.on_result(true, "", ""); // rename
    machine.on_result(true, "", ""); // fetch
    let r = machine.on_result(true, "  a\n  remotes/origin/a\n", "");
    assert!(matches!(
        r,
        SyncStepResult::Failed(MirrorError::GitOperation { .. })
    ));
}

#[test]
fn push_machine_walks_remove_add_push() {
    let mut m = PushMachine::start("p".to_string(), "u".to_string());
    assert!(matches!(m.next_op(), Some(GitOp::RemoveBackupRemote { .. })));
    m.on_result(false, "no such remote"); // tolerated
    match m.next_op() {
        Some(GitOp::AddBackupRemote { url, .. }) => assert_eq!(url, "u"),
        other => panic!("expected remote addition, got {:?}", other.map(|o| args(&o))),
    }
    m.on_result(true, "");
    assert!(matches!(m.next_op(), Some(GitOp::PushAllBranches { .. })));
    m.on_result(false, "one ref failed"); // logged, not fatal
    assert!(matches!(m.next_op(), Some(GitOp::PushAllTags { .. })));
    let r = m.on_result(true, "");
    assert!(matches!(r, SyncStepResult::Finished));
    assert!(m.next_op().is_none());
}

#[test]
fn push_machine_halts_when_remote_cannot_be_added() {
    let mut m = PushMachine::start("p".to_string(), "u".to_string());
    m.on_result(true, "");
    let r = m.on_result(false, "permission denied");
    match r {
        SyncStepResult::Failed(MirrorError::GitOperation { stderr }) => {
            assert_eq!(stderr, "permission denied");
        },
        other => panic!("expected a git failure, got {other:?}"),
    }
    assert!(m.next_op().is_none());
}
