//! What a cleanup operates on: worktrees, or the branches of one scope.
//!
//! The target decides which backend commands list and delete, and by which
//! words the resources are named in messages.

use crate::scope::{BranchScope, ScopeView};
use vstd::prelude::*;

verus! {

/// The resources that one cleanup works on.
#[derive(Debug, Clone, PartialEq, Eq)]
pub enum Target {
    /// The worktrees of the repository.
    Worktrees,
    /// The branches of one scope.
    Branches { scope: BranchScope },
}

/// The model of a [`Target`].
pub enum TargetView {
    Worktrees,
    Branches { scope: ScopeView },
}

impl View for Target {
    type V = TargetView;

    open spec fn view(&self) -> TargetView {
        match *self {
            Target::Worktrees => TargetView::Worktrees,
            Target::Branches { scope } => TargetView::Branches { scope: scope@ },
        }
    }
}

/// The words that head a list of resources to delete.
pub open spec fn display_type(target: TargetView) -> Seq<char> {
    match target {
        TargetView::Worktrees => "worktrees"@,
        TargetView::Branches { scope: ScopeView::Local } => "local branches"@,
        TargetView::Branches { scope: ScopeView::Remote { .. } } => "remote branches"@,
    }
}

/// The words by which a confirmation names the resources.
pub open spec fn confirm_type(target: TargetView) -> Seq<char> {
    match target {
        TargetView::Worktrees => "worktrees"@,
        TargetView::Branches { .. } => "branches"@,
    }
}

/// The words by which a summary names the resources.
pub open spec fn summary_type(target: TargetView) -> Seq<char> {
    match target {
        TargetView::Worktrees => "worktrees"@,
        TargetView::Branches { scope: ScopeView::Local } => "local branches"@,
        TargetView::Branches { scope: ScopeView::Remote { .. } } => "branches"@,
    }
}

/// Where the resources live: `local`, or the name of the remote.
pub open spec fn place(target: TargetView) -> Seq<char> {
    match target {
        TargetView::Branches { scope: ScopeView::Remote { remote } } => remote,
        _ => "local"@,
    }
}

/// The arguments with which git lists the resources.
pub open spec fn list_args(target: TargetView) -> Seq<Seq<char>> {
    match target {
        TargetView::Worktrees => seq!["worktree"@, "list"@],
        TargetView::Branches { scope: ScopeView::Local } => seq![
            "branch"@,
            "--format=%(refname:short)"@,
        ],
        TargetView::Branches { scope: ScopeView::Remote { .. } } => seq!["branch"@, "-r"@],
    }
}

/// The arguments with which git deletes one resource. `subject` is the path
/// of a worktree or the name of a branch. Forcing removes a worktree with
/// uncommitted changes, or a local branch that is not merged; the deletion of
/// a remote branch knows no forcing.
pub open spec fn delete_args(target: TargetView, subject: Seq<char>, force: bool) -> Seq<
    Seq<char>,
> {
    match target {
        TargetView::Worktrees => if force {
            seq!["worktree"@, "remove"@, "--force"@, subject]
        } else {
            seq!["worktree"@, "remove"@, subject]
        },
        TargetView::Branches { scope: ScopeView::Local } => seq![
            "branch"@,
            if force {
                "-D"@
            } else {
                "-d"@
            },
            subject,
        ],
        TargetView::Branches { scope: ScopeView::Remote { remote } } => seq![
            "push"@,
            remote,
            "--delete"@,
            subject,
        ],
    }
}

impl Target {
    /// The target for the branches of `scope`.
    pub fn branches(scope: BranchScope) -> (target: Target)
        ensures
            target@ == (TargetView::Branches { scope: scope@ }),
    {
        Target::Branches { scope }
    }

    /// The words that head a list of resources to delete.
    pub fn display_type(&self) -> (out: &'static str)
        ensures
            out@ == display_type(self@),
    {
        match self {
            Target::Worktrees => "worktrees",
            Target::Branches { scope: BranchScope::Local } => "local branches",
            Target::Branches { scope: BranchScope::Remote { .. } } => "remote branches",
        }
    }

    /// The words by which a confirmation names the resources.
    pub fn confirm_type(&self) -> (out: &'static str)
        ensures
            out@ == confirm_type(self@),
    {
        match self {
            Target::Worktrees => "worktrees",
            Target::Branches { .. } => "branches",
        }
    }

    /// The words by which a summary names the resources.
    pub fn summary_type(&self) -> (out: &'static str)
        ensures
            out@ == summary_type(self@),
    {
        match self {
            Target::Worktrees => "worktrees",
            Target::Branches { scope: BranchScope::Local } => "local branches",
            Target::Branches { scope: BranchScope::Remote { .. } } => "branches",
        }
    }

    /// Where the resources live.
    pub fn place(&self) -> (out: String)
        ensures
            out@ == place(self@),
    {
        match self {
            Target::Branches { scope: BranchScope::Remote { remote } } => remote.clone(),
            _ => "local".to_owned(),
        }
    }

    /// The arguments with which git lists the resources.
    pub fn list_command(&self) -> (out: Vec<String>)
        ensures
            out.deep_view() == list_args(self@),
    {
        let mut out: Vec<String> = Vec::new();
        match self {
            Target::Worktrees => {
                out.push("worktree".to_owned());
                out.push("list".to_owned());
            },
            Target::Branches { scope: BranchScope::Local } => {
                out.push("branch".to_owned());
                out.push("--format=%(refname:short)".to_owned());
            },
            Target::Branches { scope: BranchScope::Remote { .. } } => {
                out.push("branch".to_owned());
                out.push("-r".to_owned());
            },
        }
        assert(out.deep_view() =~= list_args(self@));
        out
    }

    /// The arguments with which git deletes the resource `subject`.
    pub fn delete_command(&self, subject: &str, force: bool) -> (out: Vec<String>)
        ensures
            out.deep_view() == delete_args(self@, subject@, force),
    {
        let mut out: Vec<String> = Vec::new();
        match self {
            Target::Worktrees => {
                out.push("worktree".to_owned());
                out.push("remove".to_owned());
                if force {
                    out.push("--force".to_owned());
                }
                out.push(subject.to_owned());
            },
            Target::Branches { scope: BranchScope::Local } => {
                out.push("branch".to_owned());
                if force {
                    out.push("-D".to_owned());
                } else {
                    out.push("-d".to_owned());
                }
                out.push(subject.to_owned());
            },
            Target::Branches { scope: BranchScope::Remote { remote } } => {
                out.push("push".to_owned());
                out.push(remote.clone());
                out.push("--delete".to_owned());
                out.push(subject.to_owned());
            },
        }
        assert(out.deep_view() =~= delete_args(self@, subject@, force));
        out
    }
}

} // verus!
