use killallgit::error::CleanError;
use killallgit::listing::{
    get_configured_remotes, get_current_branch, get_existing_worktrees, get_git_root,
    get_local_branches, get_remote_branches, trimmed,
};
use killallgit::text::{is_whitespace_char, to_chars};
use killallgit::worktree::{
    add_worktree, get_repo_name, get_worktree_base_path, get_worktree_path, AddPlan,
};

fn names(items: &[&str]) -> Vec<String> {
    items.iter().map(|s| s.to_string()).collect()
}

fn chars(s: &str) -> Vec<char> {
    s.chars().collect()
}

#[test]
fn git_root_is_trimmed() {
    assert_eq!(get_git_root(true, "/home/u/proj\n"), Ok("/home/u/proj".to_string()));
    assert_eq!(get_git_root(false, "/home/u/proj\n"), Err(CleanError::NotARepository));
    assert_eq!(get_git_root(true, ""), Ok(String::new()));
}

#[test]
fn current_branch_is_trimmed() {
    assert_eq!(get_current_branch(true, "main\n"), Ok("main".to_string()));
    assert_eq!(
        get_current_branch(false, "main\n"),
        Err(CleanError::ListingFailure("Failed to get current branch".to_string()))
    );
    assert_eq!(trimmed(" \t x y \r\n"), "x y");
}

#[test]
fn remotes_are_the_filled_lines() {
    assert_eq!(get_configured_remotes(true, "origin\nupstream\n"), names(&["origin", "upstream"]));
    assert_eq!(get_configured_remotes(true, "origin\r\n\r\n  fork  \n"), names(&["origin", "fork"]));
    assert_eq!(get_configured_remotes(true, ""), Vec::<String>::new());
    assert_eq!(get_configured_remotes(false, "origin\n"), Vec::<String>::new());
}

#[test]
fn local_branches_leave_out_the_current_one() {
    assert_eq!(
        get_local_branches(true, "main\nfeature/a\n\nfeature/b\n", "main"),
        Ok(names(&["feature/a", "feature/b"]))
    );
    assert_eq!(
        get_local_branches(true, "main\nfeature/a", ""),
        Ok(names(&["main", "feature/a"]))
    );
    assert_eq!(
        get_local_branches(false, "main\n", "main"),
        Err(CleanError::ListingFailure("Failed to list local branches".to_string()))
    );
}

#[test]
fn remote_branches_are_named_without_the_remote() {
    let printed = "  origin/HEAD -> origin/main\n  origin/main\n  origin/feature/test-1\n  upstream/x\n  originx/y\n";
    assert_eq!(
        get_remote_branches(true, printed, "origin"),
        Ok(names(&["main", "feature/test-1"]))
    );
    assert_eq!(get_remote_branches(true, printed, "upstream"), Ok(names(&["x"])));
    assert_eq!(get_remote_branches(true, printed, "fork"), Ok(Vec::new()));
    assert_eq!(
        get_remote_branches(true, "origin/HEADLINE\norigin/a-HEAD\norigin/head\n", "origin"),
        Ok(names(&["head"]))
    );
    assert_eq!(
        get_remote_branches(false, printed, "origin"),
        Err(CleanError::ListingFailure("Failed to list remote branches".to_string()))
    );
}

#[test]
fn worktrees_are_named_by_their_directory() {
    let printed = "/home/u/proj                     abc1234 [main]\n/home/u/.worktrees/proj/feat-a  def5678 [feat-a]\n\n  /home/u/.worktrees/proj/feat-b\t0000000 (detached HEAD)\n/srv/bare (bare)\n";
    assert_eq!(
        get_existing_worktrees(true, printed, "/home/u/proj"),
        Ok(names(&["feat-a", "feat-b"]))
    );
    assert_eq!(
        get_existing_worktrees(true, printed, "/home/u/.worktrees/proj/feat-a"),
        Ok(names(&["proj", "feat-b"]))
    );
    assert_eq!(
        get_existing_worktrees(true, printed, ""),
        Ok(names(&["proj", "feat-a", "feat-b"]))
    );
    assert_eq!(get_existing_worktrees(true, "", "/x"), Ok(Vec::new()));
    assert_eq!(
        get_existing_worktrees(true, "/w/a/ 1 [a]\n/w/b 2 [b]\n/ 3 [c]\n/w/.. 4\n/w/d/. 5", "/w/b/"),
        Ok(names(&["a", "d"]))
    );
    assert_eq!(
        get_existing_worktrees(false, printed, "/home/u/proj"),
        Err(CleanError::ListingFailure("Failed to list worktrees".to_string()))
    );
}

#[test]
fn repository_name_is_the_last_component() {
    assert_eq!(get_repo_name("/home/u/proj"), Ok("proj".to_string()));
    assert_eq!(get_repo_name("proj"), Ok("proj".to_string()));
    assert_eq!(get_repo_name("/"), Err(CleanError::NoRepositoryName));
    assert_eq!(get_repo_name(""), Err(CleanError::NoRepositoryName));
    assert_eq!(get_repo_name("/home/u/proj/"), Ok("proj".to_string()));
    assert_eq!(get_repo_name("/home/u/proj//"), Ok("proj".to_string()));
    assert_eq!(get_repo_name("//"), Err(CleanError::NoRepositoryName));
    assert_eq!(get_repo_name("/home/u/proj/."), Ok("proj".to_string()));
    assert_eq!(get_repo_name("/home/u/proj/./"), Ok("proj".to_string()));
    assert_eq!(get_repo_name("./proj"), Ok("proj".to_string()));
    assert_eq!(get_repo_name("/home/u/.."), Err(CleanError::NoRepositoryName));
    assert_eq!(get_repo_name("/home/u/../"), Err(CleanError::NoRepositoryName));
    assert_eq!(get_repo_name(".."), Err(CleanError::NoRepositoryName));
    assert_eq!(get_repo_name("."), Err(CleanError::NoRepositoryName));
    assert_eq!(get_repo_name("/."), Err(CleanError::NoRepositoryName));
    assert_eq!(get_repo_name("/home/u/..."), Ok("...".to_string()));
    assert_eq!(get_repo_name("/home/u/a."), Ok("a.".to_string()));
    assert_eq!(get_repo_name("/home/u/.a"), Ok(".a".to_string()));
}

#[test]
fn worktrees_live_beside_the_repository() {
    assert_eq!(get_worktree_base_path("/home/u/proj"), Ok("/home/u/.worktrees/proj".to_string()));
    assert_eq!(
        get_worktree_path("/home/u/proj", "feature-x"),
        Ok("/home/u/.worktrees/proj/feature-x".to_string())
    );
    assert_eq!(get_worktree_path("/proj", "x"), Ok("/.worktrees/proj/x".to_string()));
    assert_eq!(get_worktree_path("proj", "x"), Ok(".worktrees/proj/x".to_string()));
    assert_eq!(get_worktree_path("C:/src/proj", "x"), Ok("C:/src/.worktrees/proj/x".to_string()));
    assert_eq!(get_worktree_base_path("/home/u/proj/"), Ok("/home/u/.worktrees/proj".to_string()));
    assert_eq!(get_worktree_path("/proj/", "x"), Ok("/.worktrees/proj/x".to_string()));
    assert_eq!(get_worktree_path("/a//b", "x"), Ok("/a/.worktrees/b/x".to_string()));
    assert_eq!(get_worktree_base_path("/home/u/proj/."), Ok("/home/u/.worktrees/proj".to_string()));
    assert_eq!(get_worktree_base_path("/home/u/.."), Err(CleanError::NoRepositoryName));
    assert_eq!(get_worktree_base_path("/"), Err(CleanError::NoRepositoryName));
    assert_eq!(get_worktree_path("", "x"), Err(CleanError::NoRepositoryName));
}

#[test]
fn adding_a_worktree() {
    assert_eq!(
        add_worktree("/home/u/proj", "feature-x"),
        Ok(AddPlan {
            base_path: "/home/u/.worktrees/proj".to_string(),
            worktree_path: "/home/u/.worktrees/proj/feature-x".to_string(),
            command: names(&["worktree", "add", "/home/u/.worktrees/proj/feature-x"]),
        })
    );
    assert_eq!(add_worktree("/", "x"), Err(CleanError::NoRepositoryName));
}

#[test]
fn character_helpers() {
    assert_eq!(to_chars("  ab, c\u{a0}"), chars("  ab, c\u{a0}"));
    assert_eq!(to_chars(""), Vec::<char>::new());
    assert_eq!(to_chars("héllo"), vec!['h', 'é', 'l', 'l', 'o']);
    for c in ['\t', '\n', '\u{b}', '\u{c}', '\r', ' ', '\u{85}', '\u{a0}', '\u{1680}', '\u{2000}', '\u{200a}', '\u{2028}', '\u{2029}', '\u{202f}', '\u{205f}', '\u{3000}'] {
        assert!(is_whitespace_char(c));
    }
    for c in ['a', '\u{8}', '\u{e}', '\u{200b}', '\u{180e}', '\u{feff}', '_', '\u{0}'] {
        assert!(!is_whitespace_char(c));
    }
}

#[test]
fn whitespace_agrees_with_the_standard_library() {
    let mut code: u32 = 0;
    while code <= 0x10ffff {
        if let Some(c) = char::from_u32(code) {
            assert_eq!(is_whitespace_char(c), c.is_whitespace());
        }
        code += 1;
    }
}
