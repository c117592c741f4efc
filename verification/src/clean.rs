//! The cleanup commands: from what exists and what was asked to what happens
//! next.
//!
//! Each function here takes what the front end has gathered (the listing of
//! the backend, the flags, whether a terminal is attached) and returns a
//! [`Plan`]: lines to print, and what to do after them. Nothing is deleted
//! here; a plan that deletes is executed through a `Batch`.
//!
//! A pattern is checked before the listing is looked at, so that an invalid
//! pattern fails whatever exists. Protected names, of worktrees as of
//! branches, are shown where a person reads along and are never listed in a
//! dry run, offered for selection or deleted. A dry run only ever reports. A
//! step that needs the operator (a selection, a confirmation) fails with
//! `RequiresTerminal` where no terminal is attached.

use crate::error::{CleanError, CleanErrorView};
use crate::output::{
    append_lines, deletion_lines, dry_run_lines, dry_run_output, empty_result,
    empty_result_lines, items_for_deletion, line, lines_of, protected_items, protected_lines,
    push_lines, push_notice, Line, LineKind, LineView,
};
use crate::pattern::{
    invalid_pattern_message, matching, pattern_is_valid, pattern_matches, PatternFilter,
};
use crate::protection::{
    deletable_by, protected_by, protects, MatchResult, ProtectionPolicy,
};
use crate::scope::{parse_branch_pattern, resolve, BranchScope, ScopeView};
use crate::select::{confirm_prompt, confirm_prompt_text};
use crate::target::{confirm_type, display_type, place, Target, TargetView};
use crate::text::{concat3, concat5, copy_names, text_view};
use vstd::prelude::*;
use vstd::string::StringExecFns;

verus! {

/// What a command does next.
#[derive(Debug, Clone, PartialEq, Eq)]
pub enum Plan {
    /// Print `lines`; nothing else is to be done.
    Report { lines: Vec<Line> },
    /// Ask with `prompt` which of `options` to clean: the first option
    /// stands for the local branches, each further one for a remote.
    ChooseScope { prompt: String, options: Vec<String> },
    /// Print `lines`, then let the operator pick among `items`.
    Select { lines: Vec<Line>, prompt: String, items: Vec<String>, target: Target },
    /// Print `lines`, ask the question `confirm` if there is one, and delete
    /// `items` unless the operator declines.
    Delete {
        lines: Vec<Line>,
        items: Vec<String>,
        target: Target,
        force: bool,
        confirm: Option<String>,
    },
}

/// The model of a [`Plan`].
pub enum PlanView {
    Report { lines: Seq<LineView> },
    ChooseScope { prompt: Seq<char>, options: Seq<Seq<char>> },
    Select { lines: Seq<LineView>, prompt: Seq<char>, items: Seq<Seq<char>>, target: TargetView },
    Delete {
        lines: Seq<LineView>,
        items: Seq<Seq<char>>,
        target: TargetView,
        force: bool,
        confirm: Option<Seq<char>>,
    },
}

impl View for Plan {
    type V = PlanView;

    open spec fn view(&self) -> PlanView {
        match *self {
            Plan::Report { lines } => PlanView::Report { lines: lines.deep_view() },
            Plan::ChooseScope { prompt, options } => PlanView::ChooseScope {
                prompt: prompt@,
                options: options.deep_view(),
            },
            Plan::Select { lines, prompt, items, target } => PlanView::Select {
                lines: lines.deep_view(),
                prompt: prompt@,
                items: items.deep_view(),
                target: target@,
            },
            Plan::Delete { lines, items, target, force, confirm } => PlanView::Delete {
                lines: lines.deep_view(),
                items: items.deep_view(),
                target: target@,
                force,
                confirm: match confirm {
                    Some(question) => Some(question@),
                    None => None,
                },
            },
        }
    }
}

/// The model of what a command function returns.
pub open spec fn plan_view(r: Result<Plan, CleanError>) -> Result<PlanView, CleanErrorView> {
    match r {
        Ok(plan) => Ok(plan@),
        Err(e) => Err(e@),
    }
}

/// The error for a pattern that does not compile.
pub open spec fn invalid_pattern(pattern: Seq<char>) -> CleanErrorView {
    CleanErrorView::InvalidPattern(invalid_pattern_message(pattern))
}

/// The plan that only prints `lines`.
pub open spec fn report(lines: Seq<LineView>) -> Result<PlanView, CleanErrorView> {
    Ok(PlanView::Report { lines })
}

/// The plan that deletes `items` after the lines `before` and the list of
/// the items. Without `force` the operator is asked first, which takes a
/// terminal.
pub open spec fn deletion_plan(
    before: Seq<LineView>,
    items: Seq<Seq<char>>,
    target: TargetView,
    context: Seq<char>,
    force: bool,
    terminal: bool,
) -> Result<PlanView, CleanErrorView> {
    if !force && !terminal {
        Err(CleanErrorView::RequiresTerminal)
    } else {
        Ok(
            PlanView::Delete {
                lines: before + deletion_lines(items, display_type(target), context),
                items,
                target,
                force,
                confirm: if force {
                    None
                } else {
                    Some(confirm_prompt_text(confirm_type(target), items.len(), place(target)))
                },
            },
        )
    }
}

/// The plan that lets the operator pick among `items`, which takes a
/// terminal.
pub open spec fn selection_plan(
    before: Seq<LineView>,
    prompt: Seq<char>,
    items: Seq<Seq<char>>,
    target: TargetView,
    terminal: bool,
) -> Result<PlanView, CleanErrorView> {
    if !terminal {
        Err(CleanErrorView::RequiresTerminal)
    } else {
        Ok(PlanView::Select { lines: before, prompt, items, target })
    }
}

/// The plan for the items that the operator picked.
pub open spec fn selected_plan(
    target: TargetView,
    selected: Seq<Seq<char>>,
    force: bool,
    terminal: bool,
) -> Result<PlanView, CleanErrorView> {
    deletion_plan(Seq::empty(), selected, target, "selected for deletion"@, force, terminal)
}

/// The plan for the worktrees `found` by a valid pattern. The protected ones
/// among them are set aside and only shown.
pub open spec fn worktrees_found_plan(
    pattern: Seq<char>,
    found: Seq<Seq<char>>,
    extra: Seq<Seq<char>>,
    force: bool,
    dry_run: bool,
    json: bool,
    terminal: bool,
) -> Result<PlanView, CleanErrorView> {
    let protected = found.filter(protected_by(extra));
    let deletable = found.filter(deletable_by(extra));
    if found.len() == 0 {
        report(
            empty_result_lines(json, dry_run, "No worktrees matching '"@ + pattern + "' found."@),
        )
    } else if dry_run {
        report(dry_run_lines(deletable, json))
    } else if deletable.len() == 0 {
        report(
            protected_lines(protected, "worktrees"@).push(
                line(LineKind::Notice, "No deletable worktrees (all matched are protected)."@),
            ),
        )
    } else {
        deletion_plan(
            protected_lines(protected, "worktrees"@),
            deletable,
            TargetView::Worktrees,
            "matching '"@ + pattern + "'"@,
            force,
            terminal,
        )
    }
}

/// The plan for the worktrees that a valid pattern matches.
pub open spec fn worktrees_matching_plan(
    pattern: Seq<char>,
    worktrees: Seq<Seq<char>>,
    extra: Seq<Seq<char>>,
    force: bool,
    dry_run: bool,
    json: bool,
    terminal: bool,
) -> Result<PlanView, CleanErrorView> {
    worktrees_found_plan(
        pattern,
        matching(pattern, worktrees),
        extra,
        force,
        dry_run,
        json,
        terminal,
    )
}

/// The plan for cleaning the worktrees that `pattern` matches.
pub open spec fn worktrees_by_pattern_plan(
    pattern: Seq<char>,
    worktrees: Seq<Seq<char>>,
    extra: Seq<Seq<char>>,
    force: bool,
    dry_run: bool,
    json: bool,
    terminal: bool,
) -> Result<PlanView, CleanErrorView> {
    if !pattern_is_valid(pattern) {
        Err(invalid_pattern(pattern))
    } else {
        worktrees_matching_plan(pattern, worktrees, extra, force, dry_run, json, terminal)
    }
}

/// What is shown of the worktrees before any is picked or removed: the
/// protected ones, and where no other is left, the notice that says so.
pub open spec fn worktrees_set_aside(
    worktrees: Seq<Seq<char>>,
    extra: Seq<Seq<char>>,
    label: Seq<char>,
) -> Seq<LineView> {
    let before = protected_lines(worktrees.filter(protected_by(extra)), label);
    if worktrees.filter(deletable_by(extra)).len() == 0 {
        before.push(line(LineKind::Notice, "No deletable worktrees (all are protected)."@))
    } else {
        before
    }
}

/// The plan for picking worktrees by hand: the protected ones are shown and
/// cannot be picked.
pub open spec fn worktrees_interactive_plan(
    worktrees: Seq<Seq<char>>,
    extra: Seq<Seq<char>>,
    terminal: bool,
) -> Result<PlanView, CleanErrorView> {
    let deletable = worktrees.filter(deletable_by(extra));
    let before = worktrees_set_aside(worktrees, extra, "worktrees (not selectable)"@);
    if deletable.len() == 0 {
        report(before)
    } else {
        selection_plan(
            before,
            "Select worktrees to delete"@ + selection_keys(),
            deletable,
            TargetView::Worktrees,
            terminal,
        )
    }
}

/// The plan for cleaning worktrees, by pattern or by hand.
pub open spec fn worktrees_plan(
    pattern: Option<Seq<char>>,
    worktrees: Seq<Seq<char>>,
    extra: Seq<Seq<char>>,
    force: bool,
    dry_run: bool,
    json: bool,
    terminal: bool,
) -> Result<PlanView, CleanErrorView> {
    match pattern {
        Some(p) => if !pattern_is_valid(p) {
            Err(invalid_pattern(p))
        } else if worktrees.len() == 0 {
            report(empty_result_lines(json, dry_run, "No worktrees found."@))
        } else {
            worktrees_matching_plan(p, worktrees, extra, force, dry_run, json, terminal)
        },
        None => if worktrees.len() == 0 {
            report(empty_result_lines(json, dry_run, "No worktrees found."@))
        } else if dry_run {
            report(dry_run_lines(worktrees.filter(deletable_by(extra)), json))
        } else {
            worktrees_interactive_plan(worktrees, extra, terminal)
        },
    }
}

/// The plan for removing every worktree that is not protected.
pub open spec fn all_worktrees_plan(
    worktrees: Seq<Seq<char>>,
    extra: Seq<Seq<char>>,
    force: bool,
    dry_run: bool,
    json: bool,
    terminal: bool,
) -> Result<PlanView, CleanErrorView> {
    let deletable = worktrees.filter(deletable_by(extra));
    let before = worktrees_set_aside(worktrees, extra, "worktrees"@);
    if worktrees.len() == 0 {
        report(empty_result_lines(json, dry_run, "No worktrees found."@))
    } else if dry_run {
        report(dry_run_lines(deletable, json))
    } else if deletable.len() == 0 {
        report(before)
    } else if !force && !terminal {
        Err(CleanErrorView::RequiresTerminal)
    } else {
        Ok(
            PlanView::Delete {
                lines: before.push(
                    line(LineKind::Danger, "Preparing to remove all worktrees..."@),
                ) + lines_of(LineKind::Item, deletable),
                items: deletable,
                target: TargetView::Worktrees,
                force,
                confirm: if force {
                    None
                } else {
                    Some(confirm_prompt_text("worktrees"@, deletable.len(), "local"@))
                },
            },
        )
    }
}

/// What is said where a scope has no branches.
pub open spec fn none_found(scope: ScopeView) -> Seq<char> {
    match scope {
        ScopeView::Local => "No local branches found."@,
        ScopeView::Remote { remote } => "No remote branches found on '"@ + remote + "'."@,
    }
}

/// What is said where no branch of a scope matches the pattern.
pub open spec fn none_matching(scope: ScopeView, pattern: Seq<char>) -> Seq<char> {
    match scope {
        ScopeView::Local => "No local branches matching '"@ + pattern + "' found."@,
        ScopeView::Remote { remote } => "No remote branches matching '"@ + pattern
            + "' found on '"@ + remote + "'."@,
    }
}

/// How the branches to delete were found.
pub open spec fn match_context(scope: ScopeView, pattern: Seq<char>) -> Seq<char> {
    match scope {
        ScopeView::Local => "matching '"@ + pattern + "'"@,
        ScopeView::Remote { remote } => "matching '"@ + pattern + "' on '"@ + remote + "'"@,
    }
}

/// What is said where every branch of a scope is protected.
pub open spec fn none_deletable(scope: ScopeView) -> Seq<char> {
    match scope {
        ScopeView::Local => "No deletable local branches (all are protected)."@,
        ScopeView::Remote { remote } => "No deletable remote branches on '"@ + remote
            + "' (all are protected)."@,
    }
}

/// The reminder of the keys that a selection takes, as it ends each prompt.
pub open spec fn selection_keys() -> Seq<char> {
    " (space to toggle, enter to confirm, esc to cancel)"@
}

/// The prompt over the branches of a scope.
pub open spec fn select_prompt(scope: ScopeView) -> Seq<char> {
    match scope {
        ScopeView::Local => "Select local branches to delete"@ + selection_keys(),
        ScopeView::Remote { remote } => "Select branches to delete from '"@ + remote + "'"@
            + selection_keys(),
    }
}

/// The plan for the branches `found` by a valid pattern among the `listed`
/// branches of `scope`. The protected ones among them are set aside and only
/// shown.
pub open spec fn branches_found_plan(
    pattern: Seq<char>,
    scope: ScopeView,
    listed: nat,
    found: Seq<Seq<char>>,
    extra: Seq<Seq<char>>,
    force: bool,
    dry_run: bool,
    json: bool,
    terminal: bool,
) -> Result<PlanView, CleanErrorView> {
    let protected = found.filter(protected_by(extra));
    let deletable = found.filter(deletable_by(extra));
    if listed == 0 {
        report(empty_result_lines(json, dry_run, none_found(scope)))
    } else if found.len() == 0 {
        report(empty_result_lines(json, dry_run, none_matching(scope, pattern)))
    } else if dry_run {
        report(dry_run_lines(deletable, json))
    } else if deletable.len() == 0 {
        report(
            protected_lines(protected, "branches"@).push(
                line(LineKind::Notice, "No deletable branches (all matched are protected)."@),
            ),
        )
    } else {
        deletion_plan(
            protected_lines(protected, "branches"@),
            deletable,
            TargetView::Branches { scope },
            match_context(scope, pattern),
            force,
            terminal,
        )
    }
}

/// The plan for the branches of `scope` that a valid pattern matches.
pub open spec fn branches_matching_plan(
    pattern: Seq<char>,
    scope: ScopeView,
    branches: Seq<Seq<char>>,
    extra: Seq<Seq<char>>,
    force: bool,
    dry_run: bool,
    json: bool,
    terminal: bool,
) -> Result<PlanView, CleanErrorView> {
    branches_found_plan(
        pattern,
        scope,
        branches.len(),
        matching(pattern, branches),
        extra,
        force,
        dry_run,
        json,
        terminal,
    )
}

/// The plan for cleaning the branches of `scope` that `pattern` matches.
pub open spec fn branches_by_pattern_plan(
    pattern: Seq<char>,
    scope: ScopeView,
    branches: Seq<Seq<char>>,
    extra: Seq<Seq<char>>,
    force: bool,
    dry_run: bool,
    json: bool,
    terminal: bool,
) -> Result<PlanView, CleanErrorView> {
    if !pattern_is_valid(pattern) {
        Err(invalid_pattern(pattern))
    } else {
        branches_matching_plan(pattern, scope, branches, extra, force, dry_run, json, terminal)
    }
}

/// The scopes offered for cleaning by hand: the local branches, then each
/// remote.
pub open spec fn scope_options(remotes: Seq<Seq<char>>) -> Seq<Seq<char>> {
    seq!["Local branches"@] + remotes.map_values(|remote: Seq<char>| "Remote: "@ + remote)
}

/// The plan that asks which scope to clean, which takes a terminal.
pub open spec fn scope_menu_plan(remotes: Seq<Seq<char>>, terminal: bool) -> Result<
    PlanView,
    CleanErrorView,
> {
    if !terminal {
        Err(CleanErrorView::RequiresTerminal)
    } else {
        Ok(
            PlanView::ChooseScope {
                prompt: "Which branches do you want to clean?"@,
                options: scope_options(remotes),
            },
        )
    }
}

/// The scope that the operator chose among `scope_options`; none where the
/// operator left the prompt.
pub open spec fn chosen_scope(remotes: Seq<Seq<char>>, choice: Option<usize>) -> Option<ScopeView> {
    match choice {
        None => None,
        Some(k) => if k == 0 {
            Some(ScopeView::Local)
        } else {
            Some(ScopeView::Remote { remote: remotes[k - 1] })
        },
    }
}

/// The plan for picking branches of `scope` by hand: the protected ones are
/// shown and cannot be picked.
pub open spec fn branches_interactive_plan(
    scope: ScopeView,
    branches: Seq<Seq<char>>,
    extra: Seq<Seq<char>>,
    terminal: bool,
) -> Result<PlanView, CleanErrorView> {
    let protected = branches.filter(protected_by(extra));
    let deletable = branches.filter(deletable_by(extra));
    let before = protected_lines(protected, "branches (not selectable)"@);
    if deletable.len() == 0 {
        report(before.push(line(LineKind::Notice, none_deletable(scope))))
    } else {
        selection_plan(
            before,
            select_prompt(scope),
            deletable,
            TargetView::Branches { scope },
            terminal,
        )
    }
}

/// The plan for cleaning branches. With a pattern, the scope is read off the
/// pattern and `branches` is the listing of that scope. Without one, a dry
/// run lists the deletable ones of `branches`, the local branches; else the
/// operator is asked for the scope.
pub open spec fn branches_plan(
    pattern: Option<Seq<char>>,
    remotes: Seq<Seq<char>>,
    branches: Seq<Seq<char>>,
    extra: Seq<Seq<char>>,
    force: bool,
    dry_run: bool,
    json: bool,
    terminal: bool,
) -> Result<PlanView, CleanErrorView> {
    match pattern {
        Some(p) => branches_by_pattern_plan(
            resolve(p, remotes).1,
            resolve(p, remotes).0,
            branches,
            extra,
            force,
            dry_run,
            json,
            terminal,
        ),
        None => if dry_run {
            report(dry_run_lines(branches.filter(deletable_by(extra)), json))
        } else {
            scope_menu_plan(remotes, terminal)
        },
    }
}

/// Which branches have to be listed before `branches_plan` can be made: those
/// of the scope that the pattern addresses; the local ones for a dry run
/// without a pattern; none where the operator is asked for the scope first.
/// An invalid pattern is an error here already.
pub open spec fn listing_needed(
    pattern: Option<Seq<char>>,
    remotes: Seq<Seq<char>>,
    dry_run: bool,
) -> Result<Option<ScopeView>, CleanErrorView> {
    match pattern {
        Some(p) => if pattern_is_valid(resolve(p, remotes).1) {
            Ok(Some(resolve(p, remotes).0))
        } else {
            Err(invalid_pattern(resolve(p, remotes).1))
        },
        None => if dry_run {
            Ok(Some(ScopeView::Local))
        } else {
            Ok(None)
        },
    }
}

/// The model of what `branch_listing` returns.
pub open spec fn scope_result_view(r: Result<Option<BranchScope>, CleanError>) -> Result<
    Option<ScopeView>,
    CleanErrorView,
> {
    match r {
        Ok(Some(scope)) => Ok(Some(scope@)),
        Ok(None) => Ok(None),
        Err(e) => Err(e@),
    }
}

/// The plan that deletes `items`.
fn plan_deletion(
    before: Vec<Line>,
    items: Vec<String>,
    target: Target,
    context: &str,
    force: bool,
    terminal: bool,
) -> (r: Result<Plan, CleanError>)
    ensures
        plan_view(r) == deletion_plan(
            before.deep_view(),
            items.deep_view(),
            target@,
            context@,
            force,
            terminal,
        ),
{
    if !force && !terminal {
        return Err(CleanError::RequiresTerminal);
    }
    let mut lines = before;
    let listed = items_for_deletion(&items, target.display_type(), context);
    append_lines(&mut lines, listed);
    let confirm = if force {
        None
    } else {
        let at = target.place();
        Some(confirm_prompt(target.confirm_type(), items.len(), at.as_str()))
    };
    Ok(Plan::Delete { lines, items, target, force, confirm })
}

/// The plan that lets the operator pick among `items`.
fn plan_selection(
    before: Vec<Line>,
    prompt: String,
    items: Vec<String>,
    target: Target,
    terminal: bool,
) -> (r: Result<Plan, CleanError>)
    ensures
        plan_view(r) == selection_plan(
            before.deep_view(),
            prompt@,
            items.deep_view(),
            target@,
            terminal,
        ),
{
    if !terminal {
        return Err(CleanError::RequiresTerminal);
    }
    Ok(Plan::Select { lines: before, prompt, items, target })
}

/// `head` followed by the reminder of the keys that a selection takes.
fn with_keys(head: String) -> (out: String)
    ensures
        out@ == head@ + selection_keys(),
{
    let mut out = head;
    out.append(" (space to toggle, enter to confirm, esc to cancel)");
    out
}

/// No lines.
fn no_lines() -> (out: Vec<Line>)
    ensures
        out.deep_view() == Seq::<LineView>::empty(),
{
    let out: Vec<Line> = Vec::new();
    assert(out.deep_view() =~= Seq::<LineView>::empty());
    out
}

/// Plans the deletion of the items that the operator picked among those
/// offered for `target`: they are listed, confirmed unless `force` is set,
/// and deleted.
pub fn confirm_selected(target: Target, selected: Vec<String>, force: bool, terminal: bool) -> (r:
    Result<Plan, CleanError>)
    ensures
        plan_view(r) == selected_plan(target@, selected.deep_view(), force, terminal),
{
    plan_deletion(no_lines(), selected, target, "selected for deletion", force, terminal)
}

/// Plans what is done with the worktrees `found`, the names that `pattern`
/// matched in the listing: the protected ones among them are shown and kept;
/// the others are listed in a dry run and else deleted, after a confirmation
/// unless `force` is set.
pub fn plan_worktrees_found(
    pattern: &str,
    found: Vec<String>,
    policy: &ProtectionPolicy,
    force: bool,
    dry_run: bool,
    json: bool,
    terminal: bool,
) -> (r: Result<Plan, CleanError>)
    ensures
        plan_view(r) == worktrees_found_plan(
            pattern@,
            found.deep_view(),
            policy.extra(),
            force,
            dry_run,
            json,
            terminal,
        ),
{
    if found.len() == 0 {
        let message = concat3("No worktrees matching '", pattern, "' found.");
        return Ok(Plan::Report { lines: empty_result(json, dry_run, message.as_str()) });
    }
    let parts = policy.partition(&found);
    if dry_run {
        return Ok(Plan::Report { lines: dry_run_output(&parts.deletable, json) });
    }
    let mut before = protected_items(&parts.protected, "worktrees");
    if parts.deletable.len() == 0 {
        push_notice(&mut before, "No deletable worktrees (all matched are protected).".to_owned());
        return Ok(Plan::Report { lines: before });
    }
    let context = concat3("matching '", pattern, "'");
    plan_deletion(before, parts.deletable, Target::Worktrees, context.as_str(), force, terminal)
}

/// The worktree plan for a pattern that compiled.
fn worktrees_matching(
    filter: &PatternFilter,
    pattern: &str,
    worktrees: &Vec<String>,
    policy: &ProtectionPolicy,
    force: bool,
    dry_run: bool,
    json: bool,
    terminal: bool,
) -> (r: Result<Plan, CleanError>)
    requires
        filter.pattern() == pattern@,
    ensures
        plan_view(r) == worktrees_matching_plan(
            pattern@,
            worktrees.deep_view(),
            policy.extra(),
            force,
            dry_run,
            json,
            terminal,
        ),
{
    plan_worktrees_found(
        pattern,
        filter.filter(worktrees),
        policy,
        force,
        dry_run,
        json,
        terminal,
    )
}

/// Plans the cleanup of the worktrees whose names `pattern` matches.
/// `worktrees` is the listing of the backend; the protected ones among the
/// matches are shown and kept.
pub fn clean_worktrees_by_pattern(
    pattern: &str,
    worktrees: &Vec<String>,
    policy: &ProtectionPolicy,
    force: bool,
    dry_run: bool,
    json: bool,
    terminal: bool,
) -> (r: Result<Plan, CleanError>)
    ensures
        plan_view(r) == worktrees_by_pattern_plan(
            pattern@,
            worktrees.deep_view(),
            policy.extra(),
            force,
            dry_run,
            json,
            terminal,
        ),
{
    match PatternFilter::new(pattern) {
        Ok(filter) => worktrees_matching(
            &filter,
            pattern,
            worktrees,
            policy,
            force,
            dry_run,
            json,
            terminal,
        ),
        Err(e) => Err(e),
    }
}

/// The lines that show the protected worktrees of `parts` and, where no
/// other worktree is left, say so.
fn set_aside(parts: &MatchResult, label: &str) -> (out: Vec<Line>)
    ensures
        out.deep_view() == if parts.deletable.deep_view().len() == 0 {
            protected_lines(parts.protected.deep_view(), label@).push(
                line(LineKind::Notice, "No deletable worktrees (all are protected)."@),
            )
        } else {
            protected_lines(parts.protected.deep_view(), label@)
        },
{
    let mut out = protected_items(&parts.protected, label);
    if parts.deletable.len() == 0 {
        push_notice(&mut out, "No deletable worktrees (all are protected).".to_owned());
    }
    out
}

/// Plans the cleanup of worktrees picked by hand: the worktrees that are not
/// protected are offered, the protected ones are only shown.
pub fn clean_worktrees_interactive(
    worktrees: &Vec<String>,
    policy: &ProtectionPolicy,
    terminal: bool,
) -> (r: Result<Plan, CleanError>)
    ensures
        plan_view(r) == worktrees_interactive_plan(
            worktrees.deep_view(),
            policy.extra(),
            terminal,
        ),
{
    let parts = policy.partition(worktrees);
    let before = set_aside(&parts, "worktrees (not selectable)");
    if parts.deletable.len() == 0 {
        return Ok(Plan::Report { lines: before });
    }
    plan_selection(
        before,
        with_keys("Select worktrees to delete".to_owned()),
        parts.deletable,
        Target::Worktrees,
        terminal,
    )
}

/// Plans the cleanup of worktrees. With a pattern, the worktrees that it
/// matches are deleted; without one, a dry run lists the worktrees, and else
/// the operator picks. Protected worktrees are never listed, offered or
/// deleted. `worktrees` is the listing of the backend.
pub fn clean_worktrees(
    pattern: Option<&str>,
    worktrees: &Vec<String>,
    policy: &ProtectionPolicy,
    force: bool,
    dry_run: bool,
    json: bool,
    terminal: bool,
) -> (r: Result<Plan, CleanError>)
    ensures
        plan_view(r) == worktrees_plan(
            text_view(pattern),
            worktrees.deep_view(),
            policy.extra(),
            force,
            dry_run,
            json,
            terminal,
        ),
{
    match pattern {
        Some(p) => {
            match PatternFilter::new(p) {
                Ok(filter) => {
                    if worktrees.len() == 0 {
                        Ok(
                            Plan::Report {
                                lines: empty_result(json, dry_run, "No worktrees found."),
                            },
                        )
                    } else {
                        worktrees_matching(
                            &filter,
                            p,
                            worktrees,
                            policy,
                            force,
                            dry_run,
                            json,
                            terminal,
                        )
                    }
                },
                Err(e) => Err(e),
            }
        },
        None => {
            if worktrees.len() == 0 {
                Ok(Plan::Report { lines: empty_result(json, dry_run, "No worktrees found.") })
            } else if dry_run {
                let parts = policy.partition(worktrees);
                Ok(Plan::Report { lines: dry_run_output(&parts.deletable, json) })
            } else {
                clean_worktrees_interactive(worktrees, policy, terminal)
            }
        },
    }
}

/// Plans the removal of every worktree that is not protected. `worktrees` is
/// the listing of the backend.
pub fn clean_all_worktrees(
    worktrees: &Vec<String>,
    policy: &ProtectionPolicy,
    force: bool,
    dry_run: bool,
    json: bool,
    terminal: bool,
) -> (r: Result<Plan, CleanError>)
    ensures
        plan_view(r) == all_worktrees_plan(
            worktrees.deep_view(),
            policy.extra(),
            force,
            dry_run,
            json,
            terminal,
        ),
{
    if worktrees.len() == 0 {
        return Ok(Plan::Report { lines: empty_result(json, dry_run, "No worktrees found.") });
    }
    let parts = policy.partition(worktrees);
    if dry_run {
        return Ok(Plan::Report { lines: dry_run_output(&parts.deletable, json) });
    }
    let mut lines = set_aside(&parts, "worktrees");
    if parts.deletable.len() == 0 {
        return Ok(Plan::Report { lines });
    }
    if !force && !terminal {
        return Err(CleanError::RequiresTerminal);
    }
    let ghost before = lines.deep_view();
    lines.push(
        Line { kind: LineKind::Danger, text: "Preparing to remove all worktrees...".to_owned() },
    );
    assert(lines.deep_view() =~= before.push(
        line(LineKind::Danger, "Preparing to remove all worktrees..."@),
    ));
    push_lines(&mut lines, LineKind::Item, &parts.deletable);
    let confirm = if force {
        None
    } else {
        Some(confirm_prompt("worktrees", parts.deletable.len(), "local"))
    };
    Ok(
        Plan::Delete {
            lines,
            items: parts.deletable,
            target: Target::Worktrees,
            force,
            confirm,
        },
    )
}

/// A copy of a scope.
fn copy_scope(scope: &BranchScope) -> (out: BranchScope)
    ensures
        out@ == scope@,
{
    match scope {
        BranchScope::Local => BranchScope::Local,
        BranchScope::Remote { remote } => BranchScope::Remote { remote: remote.clone() },
    }
}

/// What is said where a scope has no branches.
fn none_found_message(scope: &BranchScope) -> (out: String)
    ensures
        out@ == none_found(scope@),
{
    match scope {
        BranchScope::Local => "No local branches found.".to_owned(),
        BranchScope::Remote { remote } => concat3(
            "No remote branches found on '",
            remote.as_str(),
            "'.",
        ),
    }
}

/// What is said where no branch of a scope matches the pattern.
fn none_matching_message(scope: &BranchScope, pattern: &str) -> (out: String)
    ensures
        out@ == none_matching(scope@, pattern@),
{
    match scope {
        BranchScope::Local => concat3("No local branches matching '", pattern, "' found."),
        BranchScope::Remote { remote } => concat5(
            "No remote branches matching '",
            pattern,
            "' found on '",
            remote.as_str(),
            "'.",
        ),
    }
}

/// How the branches to delete were found.
fn match_context_text(scope: &BranchScope, pattern: &str) -> (out: String)
    ensures
        out@ == match_context(scope@, pattern@),
{
    match scope {
        BranchScope::Local => concat3("matching '", pattern, "'"),
        BranchScope::Remote { remote } => concat5(
            "matching '",
            pattern,
            "' on '",
            remote.as_str(),
            "'",
        ),
    }
}

/// What is said where every branch of a scope is protected.
fn none_deletable_message(scope: &BranchScope) -> (out: String)
    ensures
        out@ == none_deletable(scope@),
{
    match scope {
        BranchScope::Local => "No deletable local branches (all are protected).".to_owned(),
        BranchScope::Remote { remote } => concat3(
            "No deletable remote branches on '",
            remote.as_str(),
            "' (all are protected).",
        ),
    }
}

/// The prompt over the branches of a scope.
fn select_prompt_text(scope: &BranchScope) -> (out: String)
    ensures
        out@ == select_prompt(scope@),
{
    match scope {
        BranchScope::Local => with_keys("Select local branches to delete".to_owned()),
        BranchScope::Remote { remote } => with_keys(
            concat3("Select branches to delete from '", remote.as_str(), "'"),
        ),
    }
}

/// Plans what is done with the branches `found`, the names that `pattern`
/// matched among the `listed` branches of `scope`: the protected ones among
/// them are shown and kept; the others are listed in a dry run and else
/// deleted, after a confirmation unless `force` is set.
pub fn plan_branches_found(
    pattern: &str,
    scope: &BranchScope,
    listed: usize,
    found: Vec<String>,
    policy: &ProtectionPolicy,
    force: bool,
    dry_run: bool,
    json: bool,
    terminal: bool,
) -> (r: Result<Plan, CleanError>)
    ensures
        plan_view(r) == branches_found_plan(
            pattern@,
            scope@,
            listed as nat,
            found.deep_view(),
            policy.extra(),
            force,
            dry_run,
            json,
            terminal,
        ),
{
    if listed == 0 {
        let message = none_found_message(scope);
        return Ok(Plan::Report { lines: empty_result(json, dry_run, message.as_str()) });
    }
    if found.len() == 0 {
        let message = none_matching_message(scope, pattern);
        return Ok(Plan::Report { lines: empty_result(json, dry_run, message.as_str()) });
    }
    let parts = policy.partition(&found);
    if dry_run {
        return Ok(Plan::Report { lines: dry_run_output(&parts.deletable, json) });
    }
    let mut before = protected_items(&parts.protected, "branches");
    if parts.deletable.len() == 0 {
        push_notice(&mut before, "No deletable branches (all matched are protected).".to_owned());
        return Ok(Plan::Report { lines: before });
    }
    let context = match_context_text(scope, pattern);
    plan_deletion(
        before,
        parts.deletable,
        Target::Branches { scope: copy_scope(scope) },
        context.as_str(),
        force,
        terminal,
    )
}

/// The branch plan for a pattern that compiled.
fn branches_matching(
    filter: &PatternFilter,
    pattern: &str,
    scope: &BranchScope,
    branches: &Vec<String>,
    policy: &ProtectionPolicy,
    force: bool,
    dry_run: bool,
    json: bool,
    terminal: bool,
) -> (r: Result<Plan, CleanError>)
    requires
        filter.pattern() == pattern@,
    ensures
        plan_view(r) == branches_matching_plan(
            pattern@,
            scope@,
            branches.deep_view(),
            policy.extra(),
            force,
            dry_run,
            json,
            terminal,
        ),
{
    plan_branches_found(
        pattern,
        scope,
        branches.len(),
        filter.filter(branches),
        policy,
        force,
        dry_run,
        json,
        terminal,
    )
}

/// Plans the cleanup of the branches of `scope` whose names `pattern`
/// matches. `branches` is the backend's listing of that scope; the protected
/// ones among the matches are shown and kept.
pub fn clean_branches_by_pattern(
    pattern: &str,
    scope: &BranchScope,
    branches: &Vec<String>,
    policy: &ProtectionPolicy,
    force: bool,
    dry_run: bool,
    json: bool,
    terminal: bool,
) -> (r: Result<Plan, CleanError>)
    ensures
        plan_view(r) == branches_by_pattern_plan(
            pattern@,
            scope@,
            branches.deep_view(),
            policy.extra(),
            force,
            dry_run,
            json,
            terminal,
        ),
{
    match PatternFilter::new(pattern) {
        Ok(filter) => branches_matching(
            &filter,
            pattern,
            scope,
            branches,
            policy,
            force,
            dry_run,
            json,
            terminal,
        ),
        Err(e) => Err(e),
    }
}

/// Plans the cleanup of the local branches whose names `pattern` matches.
pub fn clean_local_branches_by_pattern(
    pattern: &str,
    branches: &Vec<String>,
    policy: &ProtectionPolicy,
    force: bool,
    dry_run: bool,
    json: bool,
    terminal: bool,
) -> (r: Result<Plan, CleanError>)
    ensures
        plan_view(r) == branches_by_pattern_plan(
            pattern@,
            ScopeView::Local,
            branches.deep_view(),
            policy.extra(),
            force,
            dry_run,
            json,
            terminal,
        ),
{
    clean_branches_by_pattern(
        pattern,
        &BranchScope::Local,
        branches,
        policy,
        force,
        dry_run,
        json,
        terminal,
    )
}

/// Plans the cleanup of the branches on `remote` whose names `pattern`
/// matches.
pub fn clean_remote_branches_by_pattern(
    pattern: &str,
    remote: &str,
    branches: &Vec<String>,
    policy: &ProtectionPolicy,
    force: bool,
    dry_run: bool,
    json: bool,
    terminal: bool,
) -> (r: Result<Plan, CleanError>)
    ensures
        plan_view(r) == branches_by_pattern_plan(
            pattern@,
            ScopeView::Remote { remote: remote@ },
            branches.deep_view(),
            policy.extra(),
            force,
            dry_run,
            json,
            terminal,
        ),
{
    clean_branches_by_pattern(
        pattern,
        &BranchScope::Remote { remote: remote.to_owned() },
        branches,
        policy,
        force,
        dry_run,
        json,
        terminal,
    )
}

/// Plans the question for the scope to clean by hand.
pub fn clean_branches_interactive(remotes: &Vec<String>, terminal: bool) -> (r: Result<
    Plan,
    CleanError,
>)
    ensures
        plan_view(r) == scope_menu_plan(remotes.deep_view(), terminal),
{
    if !terminal {
        return Err(CleanError::RequiresTerminal);
    }
    let mut options: Vec<String> = Vec::new();
    options.push("Local branches".to_owned());
    let mut i: usize = 0;
    while i < remotes.len()
        invariant
            i <= remotes.len(),
            options.len() == i + 1,
            options[0]@ == "Local branches"@,
            forall|k: int| 0 <= k < i ==> (#[trigger] options[k + 1])@ == "Remote: "@ + remotes[k]@,
        decreases remotes.len() - i,
    {
        let mut label = "Remote: ".to_owned();
        label.append(remotes[i].as_str());
        options.push(label);
        i = i + 1;
    }
    proof {
        let want = scope_options(remotes.deep_view());
        assert(want.len() == options.len());
        assert forall|k: int| 0 <= k < options.len() implies options.deep_view()[k] == want[k] by {
            if k > 0 {
                assert(options[(k - 1) + 1]@ == "Remote: "@ + remotes[k - 1]@);
            }
        }
        assert(options.deep_view() =~= want);
    }
    Ok(
        Plan::ChooseScope {
            prompt: "Which branches do you want to clean?".to_owned(),
            options,
        },
    )
}

/// Reads the answer to the question for the scope: the index of the chosen
/// option, or nothing where the operator left the prompt.
pub fn choose_scope(remotes: &Vec<String>, choice: Option<usize>) -> (scope: Option<BranchScope>)
    requires
        choice matches Some(k) ==> k <= remotes.len(),
    ensures
        match scope {
            Some(s) => chosen_scope(remotes.deep_view(), choice) == Some(s@),
            None => chosen_scope(remotes.deep_view(), choice).is_none(),
        },
{
    match choice {
        None => None,
        Some(k) => {
            if k == 0 {
                Some(BranchScope::Local)
            } else {
                Some(BranchScope::Remote { remote: remotes[k - 1].clone() })
            }
        },
    }
}

/// Plans the cleanup of branches of `scope` picked by hand. `branches` is
/// the backend's listing of that scope; only the branches that are not
/// protected are offered.
pub fn clean_scope_interactive(
    scope: &BranchScope,
    branches: &Vec<String>,
    policy: &ProtectionPolicy,
    terminal: bool,
) -> (r: Result<Plan, CleanError>)
    ensures
        plan_view(r) == branches_interactive_plan(
            scope@,
            branches.deep_view(),
            policy.extra(),
            terminal,
        ),
{
    let parts = policy.partition(branches);
    let mut before = protected_items(&parts.protected, "branches (not selectable)");
    if parts.deletable.len() == 0 {
        push_notice(&mut before, none_deletable_message(scope));
        return Ok(Plan::Report { lines: before });
    }
    plan_selection(
        before,
        select_prompt_text(scope),
        parts.deletable,
        Target::Branches { scope: copy_scope(scope) },
        terminal,
    )
}

/// Plans the cleanup of local branches picked by hand.
pub fn clean_local_branches_interactive(
    branches: &Vec<String>,
    policy: &ProtectionPolicy,
    terminal: bool,
) -> (r: Result<Plan, CleanError>)
    ensures
        plan_view(r) == branches_interactive_plan(
            ScopeView::Local,
            branches.deep_view(),
            policy.extra(),
            terminal,
        ),
{
    clean_scope_interactive(&BranchScope::Local, branches, policy, terminal)
}

/// Plans the cleanup of branches on `remote` picked by hand.
pub fn clean_remote_branches_interactive(
    remote: &str,
    branches: &Vec<String>,
    policy: &ProtectionPolicy,
    terminal: bool,
) -> (r: Result<Plan, CleanError>)
    ensures
        plan_view(r) == branches_interactive_plan(
            ScopeView::Remote { remote: remote@ },
            branches.deep_view(),
            policy.extra(),
            terminal,
        ),
{
    clean_scope_interactive(
        &BranchScope::Remote { remote: remote.to_owned() },
        branches,
        policy,
        terminal,
    )
}

/// Says which branches have to be listed before `clean_branches` is called,
/// and rejects an invalid pattern before anything is listed.
pub fn branch_listing(pattern: Option<&str>, remotes: &Vec<String>, dry_run: bool) -> (r: Result<
    Option<BranchScope>,
    CleanError,
>)
    ensures
        scope_result_view(r) == listing_needed(text_view(pattern), remotes.deep_view(), dry_run),
{
    match pattern {
        Some(p) => {
            let (scope, core) = parse_branch_pattern(p, remotes);
            match PatternFilter::new(core.as_str()) {
                Ok(_) => Ok(Some(scope)),
                Err(e) => Err(e),
            }
        },
        None => {
            if dry_run {
                Ok(Some(BranchScope::Local))
            } else {
                Ok(None)
            }
        },
    }
}

/// Plans the cleanup of branches. With a pattern, the scope is read off the
/// pattern (see `parse_branch_pattern`) and `branches` has to be the
/// backend's listing of that scope. Without a pattern, a dry run lists the
/// deletable ones among `branches`, which then are the local branches, and
/// else the operator is asked which scope to clean.
pub fn clean_branches(
    pattern: Option<&str>,
    remotes: &Vec<String>,
    branches: &Vec<String>,
    policy: &ProtectionPolicy,
    force: bool,
    dry_run: bool,
    json: bool,
    terminal: bool,
) -> (r: Result<Plan, CleanError>)
    ensures
        plan_view(r) == branches_plan(
            text_view(pattern),
            remotes.deep_view(),
            branches.deep_view(),
            policy.extra(),
            force,
            dry_run,
            json,
            terminal,
        ),
{
    match pattern {
        Some(p) => {
            let (scope, core) = parse_branch_pattern(p, remotes);
            clean_branches_by_pattern(
                core.as_str(),
                &scope,
                branches,
                policy,
                force,
                dry_run,
                json,
                terminal,
            )
        },
        None => {
            if dry_run {
                let parts = policy.partition(branches);
                Ok(Plan::Report { lines: dry_run_output(&parts.deletable, json) })
            } else {
                clean_branches_interactive(remotes, terminal)
            }
        },
    }
}

/// A listing of nothing is the same in a dry run whether it is made as an
/// empty result or as the dry-run listing of no items.
proof fn lemma_empty_listing(items: Seq<Seq<char>>, json: bool, message: Seq<char>)
    requires
        items.len() == 0,
    ensures
        empty_result_lines(json, true, message) == dry_run_lines(items, json),
{
    crate::output::lemma_json_of_nothing(items);
    assert(empty_result_lines(json, true, message) =~= dry_run_lines(items, json));
}

/// A dry run by pattern reports exactly the names that the pattern matches
/// and that are not protected, in the order of the listing, whatever `force`
/// and `terminal` are.
pub proof fn lemma_dry_run_lists_deletable(
    pattern: Seq<char>,
    scope: ScopeView,
    branches: Seq<Seq<char>>,
    extra: Seq<Seq<char>>,
    force: bool,
    json: bool,
    terminal: bool,
)
    requires
        pattern_is_valid(pattern),
    ensures
        branches_by_pattern_plan(pattern, scope, branches, extra, force, true, json, terminal)
            == report(dry_run_lines(matching(pattern, branches).filter(deletable_by(extra)), json)),
{
    let found = matching(pattern, branches);
    let deletable = found.filter(deletable_by(extra));
    branches.lemma_filter_len(crate::pattern::matched_by(pattern));
    found.lemma_filter_len(deletable_by(extra));
    if branches.len() == 0 {
        lemma_empty_listing(deletable, json, none_found(scope));
    } else if found.len() == 0 {
        lemma_empty_listing(deletable, json, none_matching(scope, pattern));
    }
}

/// A dry run over worktrees reports exactly the names that are not
/// protected, and with a pattern those among them that the pattern matches,
/// in the order of the listing, whatever `force` and `terminal` are.
pub proof fn lemma_dry_run_lists_deletable_worktrees(
    pattern: Seq<char>,
    worktrees: Seq<Seq<char>>,
    extra: Seq<Seq<char>>,
    force: bool,
    json: bool,
    terminal: bool,
)
    ensures
        pattern_is_valid(pattern) ==> worktrees_plan(
            Some(pattern),
            worktrees,
            extra,
            force,
            true,
            json,
            terminal,
        ) == report(
            dry_run_lines(matching(pattern, worktrees).filter(deletable_by(extra)), json),
        ),
        pattern_is_valid(pattern) ==> worktrees_by_pattern_plan(
            pattern,
            worktrees,
            extra,
            force,
            true,
            json,
            terminal,
        ) == report(
            dry_run_lines(matching(pattern, worktrees).filter(deletable_by(extra)), json),
        ),
        worktrees_plan(None, worktrees, extra, force, true, json, terminal) == report(
            dry_run_lines(worktrees.filter(deletable_by(extra)), json),
        ),
        all_worktrees_plan(worktrees, extra, force, true, json, terminal) == report(
            dry_run_lines(worktrees.filter(deletable_by(extra)), json),
        ),
{
    let found = matching(pattern, worktrees);
    let deletable = found.filter(deletable_by(extra));
    worktrees.lemma_filter_len(crate::pattern::matched_by(pattern));
    found.lemma_filter_len(deletable_by(extra));
    worktrees.lemma_filter_len(deletable_by(extra));
    if worktrees.len() == 0 {
        lemma_empty_listing(deletable, json, "No worktrees found."@);
        lemma_empty_listing(worktrees.filter(deletable_by(extra)), json, "No worktrees found."@);
    }
    if found.len() == 0 {
        lemma_empty_listing(deletable, json, "No worktrees matching '"@ + pattern + "' found."@);
    }
}

/// A dry run never prompts and never deletes: each command then either
/// rejects the pattern or only reports. As the plan is a function of what was
/// listed and asked, and a report changes nothing, a second dry run reports
/// the same.
pub proof fn lemma_dry_run_only_reports(
    pattern: Option<Seq<char>>,
    remotes: Seq<Seq<char>>,
    names: Seq<Seq<char>>,
    extra: Seq<Seq<char>>,
    force: bool,
    json: bool,
    terminal: bool,
)
    ensures
        worktrees_plan(pattern, names, extra, force, true, json, terminal) matches Ok(plan)
            ==> plan is Report,
        worktrees_plan(pattern, names, extra, force, true, json, terminal) matches Err(e)
            ==> e is InvalidPattern,
        all_worktrees_plan(names, extra, force, true, json, terminal) matches Ok(plan)
            && plan is Report,
        branches_plan(pattern, remotes, names, extra, force, true, json, terminal) matches Ok(plan)
            ==> plan is Report,
        branches_plan(pattern, remotes, names, extra, force, true, json, terminal) matches Err(e)
            ==> e is InvalidPattern,
{
}

/// A valid pattern that matches none of the names listed gives nothing.
pub proof fn lemma_nothing_matched(pattern: Seq<char>, names: Seq<Seq<char>>)
    requires
        forall|i: int| 0 <= i < names.len() ==> !pattern_matches(pattern, #[trigger] names[i]),
    ensures
        matching(pattern, names).len() == 0,
{
    let keep = crate::pattern::matched_by(pattern);
    let found = names.filter(keep);
    if found.len() > 0 {
        names.lemma_filter_pred(keep, 0);
        assert(found.contains(found[0]));
        names.lemma_filter_contains_rev(keep, found[0]);
        let i = choose|i: int| 0 <= i < names.len() && names[i] == found[0];
        assert(!pattern_matches(pattern, names[i]));
    }
}

/// A dry run in JSON mode with a pattern that is valid and matches none of
/// the names listed prints the one line `[]`, for branches of any scope and
/// for worktrees, whatever is listed, protected, forced or attached.
pub proof fn lemma_no_match_prints_empty_array(
    pattern: Seq<char>,
    remotes: Seq<Seq<char>>,
    names: Seq<Seq<char>>,
    extra: Seq<Seq<char>>,
    force: bool,
    terminal: bool,
)
    ensures
        pattern_is_valid(resolve(pattern, remotes).1) && (forall|i: int|
            0 <= i < names.len() ==> !pattern_matches(
                resolve(pattern, remotes).1,
                #[trigger] names[i],
            )) ==> branches_plan(Some(pattern), remotes, names, extra, force, true, true, terminal)
            == report(seq![line(LineKind::Plain, "[]"@)]),
        pattern_is_valid(pattern) && (forall|i: int|
            0 <= i < names.len() ==> !pattern_matches(pattern, #[trigger] names[i]))
            ==> worktrees_plan(Some(pattern), names, extra, force, true, true, terminal) == report(
            seq![line(LineKind::Plain, "[]"@)],
        ),
{
    let core = resolve(pattern, remotes).1;
    if pattern_is_valid(core) && (forall|i: int|
        0 <= i < names.len() ==> !pattern_matches(core, #[trigger] names[i])) {
        lemma_nothing_matched(core, names);
    }
    if pattern_is_valid(pattern) && (forall|i: int|
        0 <= i < names.len() ==> !pattern_matches(pattern, #[trigger] names[i])) {
        lemma_nothing_matched(pattern, names);
    }
}

/// A dry run previews the real run: where the real run deletes, it deletes
/// exactly the names that the dry run lists, and where it only reports,
/// the dry run lists nothing.
pub proof fn lemma_dry_run_previews(
    pattern: Seq<char>,
    scope: ScopeView,
    branches: Seq<Seq<char>>,
    extra: Seq<Seq<char>>,
    force: bool,
    json: bool,
    terminal: bool,
)
    requires
        pattern_is_valid(pattern),
        force || terminal,
    ensures
        match branches_by_pattern_plan(
            pattern,
            scope,
            branches,
            extra,
            force,
            false,
            json,
            terminal,
        ) {
            Ok(PlanView::Delete { items, target, .. }) => {
                &&& items == matching(pattern, branches).filter(deletable_by(extra))
                &&& items.len() > 0
                &&& target == (TargetView::Branches { scope })
            },
            Ok(PlanView::Report { .. }) => matching(pattern, branches).filter(
                deletable_by(extra),
            ).len() == 0,
            _ => false,
        },
{
    let found = matching(pattern, branches);
    branches.lemma_filter_len(crate::pattern::matched_by(pattern));
    found.lemma_filter_len(deletable_by(extra));
}

/// What a cleanup by pattern deletes: names of the listing that the pattern
/// matches and that are not protected.
pub proof fn lemma_deleted_are_deletable(
    pattern: Seq<char>,
    scope: ScopeView,
    branches: Seq<Seq<char>>,
    extra: Seq<Seq<char>>,
    force: bool,
    dry_run: bool,
    json: bool,
    terminal: bool,
    name: Seq<char>,
)
    requires
        branches_by_pattern_plan(
            pattern,
            scope,
            branches,
            extra,
            force,
            dry_run,
            json,
            terminal,
        ) matches Ok(PlanView::Delete { items, .. }) && items.contains(name),
    ensures
        branches.contains(name),
        pattern_matches(pattern, name),
        !protects(extra, name),
        !dry_run,
{
    let found = matching(pattern, branches);
    crate::protection::lemma_partition_disjoint(found, extra, name);
    crate::pattern::lemma_matching_exact(pattern, branches, name);
}

/// What a selection of branches offers: names of the listing that are not
/// protected.
pub proof fn lemma_offered_are_deletable(
    scope: ScopeView,
    branches: Seq<Seq<char>>,
    extra: Seq<Seq<char>>,
    terminal: bool,
    name: Seq<char>,
)
    requires
        branches_interactive_plan(scope, branches, extra, terminal) matches Ok(
            PlanView::Select { items, .. },
        ) && items.contains(name),
    ensures
        branches.contains(name),
        !protects(extra, name),
{
    crate::protection::lemma_partition_disjoint(branches, extra, name);
}

/// What a cleanup of worktrees offers or deletes: names of the listing that
/// are not protected.
pub proof fn lemma_worktrees_touched_are_deletable(
    pattern: Option<Seq<char>>,
    worktrees: Seq<Seq<char>>,
    extra: Seq<Seq<char>>,
    force: bool,
    dry_run: bool,
    json: bool,
    terminal: bool,
    name: Seq<char>,
)
    ensures
        (worktrees_plan(pattern, worktrees, extra, force, dry_run, json, terminal) matches Ok(
            PlanView::Delete { items, .. },
        ) && items.contains(name)) ==> worktrees.contains(name) && !protects(extra, name),
        (worktrees_plan(pattern, worktrees, extra, force, dry_run, json, terminal) matches Ok(
            PlanView::Select { items, .. },
        ) && items.contains(name)) ==> worktrees.contains(name) && !protects(extra, name),
        (all_worktrees_plan(worktrees, extra, force, dry_run, json, terminal) matches Ok(
            PlanView::Delete { items, .. },
        ) && items.contains(name)) ==> worktrees.contains(name) && !protects(extra, name),
{
    crate::protection::lemma_partition_disjoint(worktrees, extra, name);
    match pattern {
        Some(p) => {
            let found = matching(p, worktrees);
            crate::protection::lemma_partition_disjoint(found, extra, name);
            crate::pattern::lemma_matching_exact(p, worktrees, name);
        },
        None => {},
    }
}

/// A deletion is confirmed unless it is forced: the plan holds a question
/// exactly where `force` is not set.
pub proof fn lemma_confirmed_unless_forced(
    before: Seq<LineView>,
    items: Seq<Seq<char>>,
    target: TargetView,
    context: Seq<char>,
    force: bool,
    terminal: bool,
)
    ensures
        deletion_plan(before, items, target, context, force, terminal) matches Ok(
            PlanView::Delete { confirm, .. },
        ) ==> (confirm is None <==> force),
        deletion_plan(before, items, target, context, force, terminal) is Err <==> !force
            && !terminal,
{
}

} // verus!
