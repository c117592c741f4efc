use killallgit::batch::{delete_local_branches, delete_remote_branches, BatchAction, BatchEvent, BatchSummary, GitCommandResult};
use killallgit::clean::{
    branch_listing, choose_scope, clean_all_worktrees, clean_branches, clean_branches_by_pattern,
    clean_branches_interactive, clean_local_branches_by_pattern, clean_local_branches_interactive,
    clean_remote_branches_by_pattern, clean_remote_branches_interactive, clean_scope_interactive,
    clean_worktrees, clean_worktrees_by_pattern, clean_worktrees_interactive, confirm_selected,
    plan_branches_found, plan_worktrees_found, Plan,
};
use killallgit::error::CleanError;
use killallgit::output::{Line, LineKind};
use killallgit::protection::ProtectionPolicy;
use killallgit::scope::BranchScope;
use killallgit::target::Target;

fn names(items: &[&str]) -> Vec<String> {
    items.iter().map(|s| s.to_string()).collect()
}

fn l(kind: LineKind, text: &str) -> Line {
    Line { kind, text: text.to_string() }
}

fn origin() -> Vec<String> {
    names(&["origin"])
}

fn remote(name: &str) -> BranchScope {
    BranchScope::Remote { remote: name.to_string() }
}

/// What a plan prints to standard output when it only reports.
fn stdout_of(plan: &Plan) -> String {
    match plan {
        Plan::Report { lines } => {
            let mut out = String::new();
            for line in lines {
                out.push_str(&line.text);
                out.push('\n');
            }
            out
        }
        other => panic!("expected a report, got {:?}", other),
    }
}

fn dry_run(pattern: &str, remote_branches: &[&str], json: bool) -> String {
    let policy = ProtectionPolicy::new(None);
    let plan = clean_branches(
        Some(pattern),
        &origin(),
        &names(remote_branches),
        &policy,
        false,
        true,
        json,
        false,
    );
    match plan {
        Ok(plan) => stdout_of(&plan),
        Err(e) => panic!("Command should succeed: {:?}", e),
    }
}

#[test]
fn test_clean_branches_dry_run_lists_remote_branches() {
    let stdout = dry_run(
        "origin/.*",
        &["main", "feature/test-1", "feature/test-2", "bugfix/fix-123"],
        false,
    );
    assert!(stdout.contains("feature/test-1"), "Should list feature/test-1");
    assert!(stdout.contains("feature/test-2"), "Should list feature/test-2");
    assert!(stdout.contains("bugfix/fix-123"), "Should list bugfix/fix-123");
    assert!(!stdout.lines().any(|l| l.trim() == "main"), "Should not list main (protected)");
    assert_eq!(stdout, "feature/test-1\nfeature/test-2\nbugfix/fix-123\n");
}

#[test]
fn test_clean_branches_dry_run_with_pattern() {
    let stdout = dry_run(
        "origin/feature/.*",
        &["main", "feature/test-1", "feature/test-2", "bugfix/fix-123"],
        false,
    );
    assert!(stdout.contains("feature/test-1"), "Should list feature/test-1");
    assert!(stdout.contains("feature/test-2"), "Should list feature/test-2");
    assert!(!stdout.contains("bugfix/fix-123"), "Should not list bugfix/fix-123");
}

#[test]
fn test_clean_branches_dry_run_json_output() {
    let stdout = dry_run(
        "origin/feature/json.*",
        &["main", "feature/json-test-1", "feature/json-test-2"],
        true,
    );
    let stdout_trimmed = stdout.trim();
    assert!(stdout_trimmed.starts_with('['), "Should be JSON array");
    assert!(stdout_trimmed.ends_with(']'), "Should be JSON array");
    assert!(stdout_trimmed.contains("feature/json-test-1"), "Should contain branch 1");
    assert!(stdout_trimmed.contains("feature/json-test-2"), "Should contain branch 2");
    assert_eq!(stdout_trimmed, "[\"feature/json-test-1\",\"feature/json-test-2\"]");
}

#[test]
fn test_clean_branches_actually_deletes() {
    let mut backend = names(&["main", "feature/delete-me-1", "feature/delete-me-2"]);
    let policy = ProtectionPolicy::new(None);
    let plan = clean_branches(
        Some("origin/feature/delete-me.*"),
        &origin(),
        &backend,
        &policy,
        true,
        false,
        false,
        false,
    );
    let (items, target) = match plan {
        Ok(Plan::Delete { items, target, force: true, confirm: None, .. }) => (items, target),
        other => panic!("Command should succeed with a forced deletion: {:?}", other),
    };
    assert_eq!(target, Target::branches(remote("origin")));
    let mut batch = delete_remote_branches(items, "origin");
    let mut stdout = String::new();
    loop {
        match batch.action() {
            BatchAction::Done => break,
            BatchAction::CheckPath { .. } => panic!("branches have no path"),
            BatchAction::Run { command } => {
                assert_eq!(&command[..3], &names(&["push", "origin", "--delete"])[..]);
                backend.retain(|b| b != &command[3]);
                batch.handle(BatchEvent::Finished { result: GitCommandResult::Success });
            }
        }
    }
    for line in batch.summary_output() {
        stdout.push_str(&line.text);
        stdout.push('\n');
    }
    assert!(stdout.contains("Deleted"), "Should show deletion message");
    assert!(stdout.contains("Deleted 2 branches from origin"));
    assert!(!backend.iter().any(|b| b.contains("feature/delete-me-1")), "Branch 1 should be deleted");
    assert!(!backend.iter().any(|b| b.contains("feature/delete-me-2")), "Branch 2 should be deleted");
    assert_eq!(backend, names(&["main"]));
}

#[test]
fn test_clean_branches_protects_main() {
    let stdout = dry_run("origin/main", &["main"], false);
    let lines: Vec<&str> = stdout.lines().filter(|l| !l.is_empty()).collect();
    assert!(
        lines.is_empty() || !lines.iter().any(|l| l.trim() == "main"),
        "Should not list main as deletable"
    );
    assert!(lines.is_empty());
}

#[test]
fn test_clean_branches_no_matching() {
    let stdout = dry_run("origin/nonexistent/.*", &["main", "feature/a"], true);
    assert_eq!(stdout.trim(), "[]", "Should return empty JSON array");
    assert_eq!(dry_run("origin/nonexistent/.*", &[], true).trim(), "[]");
    assert_eq!(dry_run("nonexistent/.*", &["x", "y/z"], true).trim(), "[]");
}

#[test]
fn forced_local_cleanup_end_to_end() {
    let mut backend = names(&["feature/a", "feature/b", "main"]);
    let policy = ProtectionPolicy::new(None);
    let plan = clean_branches(
        Some("feature/.*"),
        &origin(),
        &backend,
        &policy,
        true,
        false,
        false,
        false,
    );
    let (lines, items, force) = match plan {
        Ok(Plan::Delete { lines, items, target, force, confirm }) => {
            assert_eq!(target, Target::branches(BranchScope::Local));
            assert_eq!(confirm, None);
            (lines, items, force)
        }
        other => panic!("expected a deletion, got {:?}", other),
    };
    assert_eq!(
        lines,
        vec![
            l(LineKind::Heading, "Found 2 local branches matching 'feature/.*':"),
            l(LineKind::Item, "feature/a"),
            l(LineKind::Item, "feature/b"),
        ]
    );
    assert_eq!(items, names(&["feature/a", "feature/b"]));
    let mut batch = delete_local_branches(items, force);
    let mut deleted = Vec::new();
    loop {
        match batch.action() {
            BatchAction::Done => break,
            BatchAction::CheckPath { .. } => panic!("branches have no path"),
            BatchAction::Run { command } => {
                assert_eq!(command[0], "branch");
                assert_eq!(command[1], "-D");
                deleted.push(command[2].clone());
                backend.retain(|b| b != &command[2]);
                batch.handle(BatchEvent::Finished { result: GitCommandResult::Success });
            }
        }
    }
    assert_eq!(deleted, names(&["feature/a", "feature/b"]));
    assert_eq!(backend, names(&["main"]));
    assert_eq!(batch.summary(), BatchSummary { succeeded: 2, failed: 0 });
    assert_eq!(
        batch.summary_output(),
        vec![l(LineKind::Blank, ""), l(LineKind::Success, "Deleted 2 local branches from local")]
    );
}

#[test]
fn dry_run_is_independent_of_force_and_terminal() {
    let policy = ProtectionPolicy::new(Some("feature/keep"));
    let branches = names(&["feature/a", "feature/keep", "main", "feature/b", "other"]);
    let mut seen = Vec::new();
    for force in [false, true] {
        for terminal in [false, true] {
            for json in [false, true] {
                let plan = clean_local_branches_by_pattern(
                    "feature|main",
                    &branches,
                    &policy,
                    force,
                    true,
                    json,
                    terminal,
                );
                let expected = if json {
                    vec![l(LineKind::Plain, "[\"feature/a\",\"feature/b\"]")]
                } else {
                    vec![l(LineKind::Plain, "feature/a"), l(LineKind::Plain, "feature/b")]
                };
                assert_eq!(plan, Ok(Plan::Report { lines: expected }));
                seen.push(plan);
            }
        }
    }
    let again = clean_local_branches_by_pattern("feature|main", &branches, &policy, false, true, false, false);
    assert_eq!(again, seen[0]);
}

#[test]
fn invalid_pattern_fails_before_the_listing_counts() {
    let policy = ProtectionPolicy::new(None);
    for branches in [Vec::new(), names(&["a"])] {
        for dry in [false, true] {
            assert!(matches!(
                clean_local_branches_by_pattern("(", &branches, &policy, true, dry, dry, true),
                Err(CleanError::InvalidPattern(_))
            ));
            assert!(matches!(
                clean_worktrees(Some("("), &branches, &policy, true, dry, dry, true),
                Err(CleanError::InvalidPattern(_))
            ));
            assert!(matches!(
                clean_worktrees_by_pattern("[", &branches, &policy, true, dry, dry, true),
                Err(CleanError::InvalidPattern(_))
            ));
        }
    }
    assert!(matches!(
        branch_listing(Some("origin/("), &origin(), true),
        Err(CleanError::InvalidPattern(_))
    ));
    assert!(matches!(
        clean_branches(Some("origin/("), &origin(), &Vec::new(), &policy, false, true, true, false),
        Err(CleanError::InvalidPattern(_))
    ));
}

#[test]
fn listing_needed_for_branches() {
    assert_eq!(branch_listing(Some("origin/feat/.*"), &origin(), false), Ok(Some(remote("origin"))));
    assert_eq!(branch_listing(Some("feat/.*"), &origin(), true), Ok(Some(BranchScope::Local)));
    assert_eq!(branch_listing(None, &origin(), true), Ok(Some(BranchScope::Local)));
    assert_eq!(branch_listing(None, &origin(), false), Ok(None));
}

#[test]
fn empty_listings_are_reported() {
    let policy = ProtectionPolicy::new(None);
    let none = Vec::new();
    assert_eq!(
        clean_worktrees(None, &none, &policy, false, false, false, false),
        Ok(Plan::Report { lines: vec![l(LineKind::Notice, "No worktrees found.")] })
    );
    assert_eq!(
        clean_worktrees(Some("x"), &none, &policy, false, true, false, false),
        Ok(Plan::Report { lines: Vec::new() })
    );
    assert_eq!(
        clean_all_worktrees(&none, &policy, false, true, true, false),
        Ok(Plan::Report { lines: vec![l(LineKind::Plain, "[]")] })
    );
    assert_eq!(
        clean_local_branches_by_pattern("x", &none, &policy, false, false, false, false),
        Ok(Plan::Report { lines: vec![l(LineKind::Notice, "No local branches found.")] })
    );
    assert_eq!(
        clean_remote_branches_by_pattern("x", "origin", &none, &policy, false, false, false, false),
        Ok(Plan::Report { lines: vec![l(LineKind::Notice, "No remote branches found on 'origin'.")] })
    );
}

#[test]
fn nothing_matching_is_reported() {
    let policy = ProtectionPolicy::new(None);
    let some = names(&["a", "b"]);
    assert_eq!(
        clean_worktrees(Some("zzz"), &some, &policy, false, false, false, false),
        Ok(Plan::Report { lines: vec![l(LineKind::Notice, "No worktrees matching 'zzz' found.")] })
    );
    assert_eq!(
        clean_local_branches_by_pattern("zzz", &some, &policy, false, false, false, false),
        Ok(Plan::Report {
            lines: vec![l(LineKind::Notice, "No local branches matching 'zzz' found.")]
        })
    );
    assert_eq!(
        clean_remote_branches_by_pattern("zzz", "up", &some, &policy, false, false, false, false),
        Ok(Plan::Report {
            lines: vec![l(LineKind::Notice, "No remote branches matching 'zzz' found on 'up'.")]
        })
    );
}

#[test]
fn all_matches_protected() {
    let policy = ProtectionPolicy::new(None);
    let plan = clean_local_branches_by_pattern(
        "ma",
        &names(&["main", "master", "x"]),
        &policy,
        true,
        false,
        false,
        true,
    );
    assert_eq!(
        plan,
        Ok(Plan::Report {
            lines: vec![
                l(LineKind::Warning, "Protected branches (skipped):"),
                l(LineKind::Muted, "main"),
                l(LineKind::Muted, "master"),
                l(LineKind::Blank, ""),
                l(LineKind::Notice, "No deletable branches (all matched are protected)."),
            ]
        })
    );
}

#[test]
fn unforced_cleanup_asks_and_needs_a_terminal() {
    let policy = ProtectionPolicy::new(None);
    let branches = names(&["main", "feat/a", "feat/b"]);
    assert_eq!(
        clean_remote_branches_by_pattern(".*", "origin", &branches, &policy, false, false, false, false),
        Err(CleanError::RequiresTerminal)
    );
    let plan =
        clean_remote_branches_by_pattern(".*", "origin", &branches, &policy, false, false, false, true);
    assert_eq!(
        plan,
        Ok(Plan::Delete {
            lines: vec![
                l(LineKind::Warning, "Protected branches (skipped):"),
                l(LineKind::Muted, "main"),
                l(LineKind::Blank, ""),
                l(LineKind::Heading, "Found 2 remote branches matching '.*' on 'origin':"),
                l(LineKind::Item, "feat/a"),
                l(LineKind::Item, "feat/b"),
            ],
            items: names(&["feat/a", "feat/b"]),
            target: Target::branches(remote("origin")),
            force: false,
            confirm: Some("Delete these 2 branches from origin?".to_string()),
        })
    );
}

#[test]
fn worktrees_by_pattern() {
    let policy = ProtectionPolicy::new(None);
    let trees = names(&["feat-a", "main", "feat-b"]);
    assert_eq!(
        clean_worktrees(Some("feat"), &trees, &policy, false, true, false, false),
        Ok(Plan::Report {
            lines: vec![l(LineKind::Plain, "feat-a"), l(LineKind::Plain, "feat-b")]
        })
    );
    assert_eq!(
        clean_worktrees_by_pattern("main", &trees, &policy, false, true, true, false),
        Ok(Plan::Report { lines: vec![l(LineKind::Plain, "[]")] })
    );
    assert_eq!(
        clean_worktrees_by_pattern("main", &trees, &policy, false, true, false, false),
        Ok(Plan::Report { lines: Vec::new() })
    );
    assert_eq!(
        clean_worktrees(Some("feat"), &trees, &policy, true, false, false, false),
        Ok(Plan::Delete {
            lines: vec![
                l(LineKind::Heading, "Found 2 worktrees matching 'feat':"),
                l(LineKind::Item, "feat-a"),
                l(LineKind::Item, "feat-b"),
            ],
            items: names(&["feat-a", "feat-b"]),
            target: Target::Worktrees,
            force: true,
            confirm: None,
        })
    );
    assert_eq!(
        clean_worktrees(Some("feat"), &trees, &policy, false, false, false, false),
        Err(CleanError::RequiresTerminal)
    );
}

#[test]
fn protected_worktrees_are_never_listed_or_deleted() {
    let policy = ProtectionPolicy::new(None);
    let trees = names(&["main", "maint-1"]);
    assert_eq!(
        clean_worktrees_by_pattern("ma", &trees, &policy, false, true, false, false),
        Ok(Plan::Report { lines: vec![l(LineKind::Plain, "maint-1")] })
    );
    assert_eq!(
        clean_worktrees(Some("ma"), &trees, &policy, true, true, true, false),
        Ok(Plan::Report { lines: vec![l(LineKind::Plain, "[\"maint-1\"]")] })
    );
    assert_eq!(
        clean_worktrees(Some("ma"), &trees, &policy, true, false, false, false),
        Ok(Plan::Delete {
            lines: vec![
                l(LineKind::Warning, "Protected worktrees (skipped):"),
                l(LineKind::Muted, "main"),
                l(LineKind::Blank, ""),
                l(LineKind::Heading, "Found 1 worktrees matching 'ma':"),
                l(LineKind::Item, "maint-1"),
            ],
            items: names(&["maint-1"]),
            target: Target::Worktrees,
            force: true,
            confirm: None,
        })
    );
    assert_eq!(
        clean_worktrees(Some("^main$"), &trees, &policy, true, false, false, false),
        Ok(Plan::Report {
            lines: vec![
                l(LineKind::Warning, "Protected worktrees (skipped):"),
                l(LineKind::Muted, "main"),
                l(LineKind::Blank, ""),
                l(LineKind::Notice, "No deletable worktrees (all matched are protected)."),
            ]
        })
    );
    let with_list = ProtectionPolicy::new(Some("maint-1"));
    assert_eq!(
        clean_worktrees_by_pattern("ma", &trees, &with_list, false, true, false, false),
        Ok(Plan::Report { lines: Vec::new() })
    );
}

#[test]
fn matches_handed_in_are_planned() {
    let policy = ProtectionPolicy::new(Some("keep"));
    assert_eq!(
        plan_worktrees_found("x", names(&["a", "keep", "b"]), &policy, false, true, false, false),
        Ok(Plan::Report { lines: vec![l(LineKind::Plain, "a"), l(LineKind::Plain, "b")] })
    );
    assert_eq!(
        plan_worktrees_found("x", Vec::new(), &policy, false, false, false, false),
        Ok(Plan::Report { lines: vec![l(LineKind::Notice, "No worktrees matching 'x' found.")] })
    );
    assert_eq!(
        plan_branches_found("x", &BranchScope::Local, 3, names(&["a", "main"]), &policy, false, true, true, false),
        Ok(Plan::Report { lines: vec![l(LineKind::Plain, "[\"a\"]")] })
    );
    assert_eq!(
        plan_branches_found("x", &remote("up"), 0, Vec::new(), &policy, false, false, false, false),
        Ok(Plan::Report { lines: vec![l(LineKind::Notice, "No remote branches found on 'up'.")] })
    );
    assert_eq!(
        plan_branches_found("x", &remote("up"), 2, Vec::new(), &policy, false, true, true, false),
        Ok(Plan::Report { lines: vec![l(LineKind::Plain, "[]")] })
    );
    assert_eq!(
        plan_branches_found("x", &remote("up"), 2, names(&["a"]), &policy, true, false, false, false),
        Ok(Plan::Delete {
            lines: vec![
                l(LineKind::Heading, "Found 1 remote branches matching 'x' on 'up':"),
                l(LineKind::Item, "a"),
            ],
            items: names(&["a"]),
            target: Target::branches(remote("up")),
            force: true,
            confirm: None,
        })
    );
}

#[test]
fn worktrees_without_pattern() {
    let policy = ProtectionPolicy::new(None);
    let trees = names(&["feat-a", "main", "feat-b"]);
    assert_eq!(
        clean_worktrees(None, &trees, &policy, false, true, false, false),
        Ok(Plan::Report { lines: vec![l(LineKind::Plain, "feat-a"), l(LineKind::Plain, "feat-b")] })
    );
    assert_eq!(
        clean_worktrees(None, &trees, &policy, false, false, false, false),
        Err(CleanError::RequiresTerminal)
    );
    let select = Plan::Select {
        lines: vec![
            l(LineKind::Warning, "Protected worktrees (not selectable) (skipped):"),
            l(LineKind::Muted, "main"),
            l(LineKind::Blank, ""),
        ],
        prompt: "Select worktrees to delete (space to toggle, enter to confirm, esc to cancel)"
            .to_string(),
        items: names(&["feat-a", "feat-b"]),
        target: Target::Worktrees,
    };
    assert_eq!(clean_worktrees(None, &trees, &policy, true, false, false, true), Ok(select.clone()));
    assert_eq!(clean_worktrees_interactive(&trees, &policy, true), Ok(select));
    assert_eq!(
        clean_worktrees_interactive(&trees, &policy, false),
        Err(CleanError::RequiresTerminal)
    );
    assert_eq!(
        clean_worktrees_interactive(&names(&["feat-a"]), &policy, true),
        Ok(Plan::Select {
            lines: Vec::new(),
            prompt: "Select worktrees to delete (space to toggle, enter to confirm, esc to cancel)"
                .to_string(),
            items: names(&["feat-a"]),
            target: Target::Worktrees,
        })
    );
    assert_eq!(
        clean_worktrees_interactive(&names(&["main"]), &policy, false),
        Ok(Plan::Report {
            lines: vec![
                l(LineKind::Warning, "Protected worktrees (not selectable) (skipped):"),
                l(LineKind::Muted, "main"),
                l(LineKind::Blank, ""),
                l(LineKind::Notice, "No deletable worktrees (all are protected)."),
            ]
        })
    );
}

#[test]
fn all_worktrees() {
    let policy = ProtectionPolicy::new(None);
    let trees = names(&["a", "master", "b"]);
    assert_eq!(
        clean_all_worktrees(&trees, &policy, false, true, false, false),
        Ok(Plan::Report { lines: vec![l(LineKind::Plain, "a"), l(LineKind::Plain, "b")] })
    );
    assert_eq!(
        clean_all_worktrees(&trees, &policy, false, false, false, false),
        Err(CleanError::RequiresTerminal)
    );
    assert_eq!(
        clean_all_worktrees(&trees, &policy, false, false, false, true),
        Ok(Plan::Delete {
            lines: vec![
                l(LineKind::Warning, "Protected worktrees (skipped):"),
                l(LineKind::Muted, "master"),
                l(LineKind::Blank, ""),
                l(LineKind::Danger, "Preparing to remove all worktrees..."),
                l(LineKind::Item, "a"),
                l(LineKind::Item, "b"),
            ],
            items: names(&["a", "b"]),
            target: Target::Worktrees,
            force: false,
            confirm: Some("Delete these 2 worktrees from local?".to_string()),
        })
    );
    match clean_all_worktrees(&names(&["a", "b"]), &policy, true, false, false, false) {
        Ok(Plan::Delete { force: true, confirm: None, items, lines, .. }) => {
            assert_eq!(items, names(&["a", "b"]));
            assert_eq!(lines[0], l(LineKind::Danger, "Preparing to remove all worktrees..."));
        }
        other => panic!("expected a forced deletion, got {:?}", other),
    }
    assert_eq!(
        clean_all_worktrees(&names(&["main", "develop"]), &policy, true, false, false, false),
        Ok(Plan::Report {
            lines: vec![
                l(LineKind::Warning, "Protected worktrees (skipped):"),
                l(LineKind::Muted, "main"),
                l(LineKind::Muted, "develop"),
                l(LineKind::Blank, ""),
                l(LineKind::Notice, "No deletable worktrees (all are protected)."),
            ]
        })
    );
    assert_eq!(
        clean_all_worktrees(&names(&["main"]), &policy, true, true, true, false),
        Ok(Plan::Report { lines: vec![l(LineKind::Plain, "[]")] })
    );
}

#[test]
fn branches_without_pattern() {
    let policy = ProtectionPolicy::new(Some("keep"));
    let branches = names(&["main", "a", "keep", "b"]);
    let remotes = names(&["origin", "fork"]);
    assert_eq!(
        clean_branches(None, &remotes, &branches, &policy, false, true, false, false),
        Ok(Plan::Report { lines: vec![l(LineKind::Plain, "a"), l(LineKind::Plain, "b")] })
    );
    assert_eq!(
        clean_branches(None, &remotes, &branches, &policy, false, true, true, false),
        Ok(Plan::Report { lines: vec![l(LineKind::Plain, "[\"a\",\"b\"]")] })
    );
    assert_eq!(
        clean_branches(None, &remotes, &branches, &policy, false, false, false, false),
        Err(CleanError::RequiresTerminal)
    );
    let menu = Plan::ChooseScope {
        prompt: "Which branches do you want to clean?".to_string(),
        options: names(&["Local branches", "Remote: origin", "Remote: fork"]),
    };
    assert_eq!(
        clean_branches(None, &remotes, &branches, &policy, false, false, false, true),
        Ok(menu.clone())
    );
    assert_eq!(clean_branches_interactive(&remotes, true), Ok(menu));
    assert_eq!(choose_scope(&remotes, None), None);
    assert_eq!(choose_scope(&remotes, Some(0)), Some(BranchScope::Local));
    assert_eq!(choose_scope(&remotes, Some(1)), Some(remote("origin")));
    assert_eq!(choose_scope(&remotes, Some(2)), Some(remote("fork")));
}

#[test]
fn only_deletable_branches_are_offered() {
    let policy = ProtectionPolicy::new(Some("keep"));
    let branches = names(&["main", "a", "keep", "b"]);
    let protected = vec![
        l(LineKind::Warning, "Protected branches (not selectable) (skipped):"),
        l(LineKind::Muted, "main"),
        l(LineKind::Muted, "keep"),
        l(LineKind::Blank, ""),
    ];
    assert_eq!(
        clean_local_branches_interactive(&branches, &policy, true),
        Ok(Plan::Select {
            lines: protected.clone(),
            prompt: "Select local branches to delete (space to toggle, enter to confirm, esc to cancel)".to_string(),
            items: names(&["a", "b"]),
            target: Target::branches(BranchScope::Local),
        })
    );
    assert_eq!(
        clean_remote_branches_interactive("origin", &branches, &policy, true),
        Ok(Plan::Select {
            lines: protected.clone(),
            prompt: "Select branches to delete from 'origin' (space to toggle, enter to confirm, esc to cancel)".to_string(),
            items: names(&["a", "b"]),
            target: Target::branches(remote("origin")),
        })
    );
    assert_eq!(
        clean_scope_interactive(&BranchScope::Local, &branches, &policy, false),
        Err(CleanError::RequiresTerminal)
    );
    let mut with_notice = vec![
        l(LineKind::Warning, "Protected branches (not selectable) (skipped):"),
        l(LineKind::Muted, "main"),
        l(LineKind::Blank, ""),
    ];
    with_notice.push(l(LineKind::Notice, "No deletable local branches (all are protected)."));
    assert_eq!(
        clean_local_branches_interactive(&names(&["main"]), &policy, true),
        Ok(Plan::Report { lines: with_notice })
    );
    assert_eq!(
        clean_remote_branches_interactive("origin", &Vec::new(), &policy, true),
        Ok(Plan::Report {
            lines: vec![l(
                LineKind::Notice,
                "No deletable remote branches on 'origin' (all are protected)."
            )]
        })
    );
}

#[test]
fn picked_items_are_confirmed_unless_forced() {
    let picked = names(&["b"]);
    assert_eq!(
        confirm_selected(Target::branches(BranchScope::Local), picked.clone(), false, true),
        Ok(Plan::Delete {
            lines: vec![
                l(LineKind::Heading, "Found 1 local branches selected for deletion:"),
                l(LineKind::Item, "b"),
            ],
            items: picked.clone(),
            target: Target::branches(BranchScope::Local),
            force: false,
            confirm: Some("Delete these 1 branches from local?".to_string()),
        })
    );
    match confirm_selected(Target::Worktrees, picked.clone(), true, false) {
        Ok(Plan::Delete { confirm: None, force: true, .. }) => {}
        other => panic!("expected a forced deletion, got {:?}", other),
    }
    assert_eq!(
        confirm_selected(Target::Worktrees, picked, false, false),
        Err(CleanError::RequiresTerminal)
    );
}

#[test]
fn scope_is_read_off_the_pattern() {
    let policy = ProtectionPolicy::new(None);
    let remotes = names(&["origin", "upstream"]);
    let branches = names(&["feat/a"]);
    match clean_branches(Some("upstream/feat"), &remotes, &branches, &policy, true, false, false, false) {
        Ok(Plan::Delete { target, lines, .. }) => {
            assert_eq!(target, Target::branches(remote("upstream")));
            assert_eq!(lines[0], l(LineKind::Heading, "Found 1 remote branches matching 'feat' on 'upstream':"));
        }
        other => panic!("expected a deletion, got {:?}", other),
    }
    assert_eq!(
        clean_branches_by_pattern("feat", &BranchScope::Local, &branches, &policy, true, true, false, false),
        Ok(Plan::Report { lines: vec![l(LineKind::Plain, "feat/a")] })
    );
}
