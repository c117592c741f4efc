//! Deleting a list of resources one by one.
//!
//! A [`Batch`] walks through its names in order. For each it says what the
//! front end has to do next ([`Batch::action`]) and takes back what happened
//! ([`Batch::handle`]). A deletion that fails is counted and the batch moves
//! on to the next name: no failure ends it early. A worktree whose directory
//! is gone is counted as failed without a call to git, and so is every
//! worktree of a repository whose root has no name to derive paths from.

use crate::error::{error_message, CleanErrorView};
use crate::output::{deletion_summary, line, summary_lines, Line, LineKind, LineView};
use crate::scope::{BranchScope, ScopeView};
use crate::target::{delete_args, place, summary_type, Target, TargetView};
use crate::text::{copy_names, copy_range, to_chars, trim, trim_range};
use crate::worktree::{
    file_name, get_worktree_base_path, join_path, worktree_base, worktree_path,
};
use vstd::prelude::*;

verus! {

/// How the deletion of one resource ended.
#[derive(Debug, Clone, PartialEq, Eq)]
pub enum GitCommandResult {
    Success,
    /// The deletion failed; holds the reason.
    Failure(String),
}

/// The model of a [`GitCommandResult`].
pub enum OutcomeView {
    Success,
    Failure(Seq<char>),
}

impl View for GitCommandResult {
    type V = OutcomeView;

    open spec fn view(&self) -> OutcomeView {
        match *self {
            GitCommandResult::Success => OutcomeView::Success,
            GitCommandResult::Failure(reason) => OutcomeView::Failure(reason@),
        }
    }
}

/// How many deletions of a batch succeeded and how many failed.
#[derive(Debug, Clone, Copy, PartialEq, Eq)]
pub struct BatchSummary {
    pub succeeded: usize,
    pub failed: usize,
}

/// What the front end reports back to a batch.
#[derive(Debug, Clone, PartialEq, Eq)]
pub enum BatchEvent {
    /// Whether the directory asked about exists.
    PathChecked { exists: bool },
    /// How the git command asked for ended.
    Finished { result: GitCommandResult },
}

/// The model of a [`BatchEvent`].
pub enum EventView {
    PathChecked { exists: bool },
    Finished { result: OutcomeView },
}

impl View for BatchEvent {
    type V = EventView;

    open spec fn view(&self) -> EventView {
        match *self {
            BatchEvent::PathChecked { exists } => EventView::PathChecked { exists },
            BatchEvent::Finished { result } => EventView::Finished { result: result@ },
        }
    }
}

/// What the front end has to do next for a batch.
#[derive(Debug, Clone, PartialEq, Eq)]
pub enum BatchAction {
    /// Look whether the directory `path` exists; answer with `PathChecked`.
    CheckPath { path: String },
    /// Run git with the arguments `command`; answer with `Finished`.
    Run { command: Vec<String> },
    /// Every name has been dealt with.
    Done,
}

/// The model of a [`BatchAction`].
pub enum ActionView {
    CheckPath { path: Seq<char> },
    Run { command: Seq<Seq<char>> },
    Done,
}

impl View for BatchAction {
    type V = ActionView;

    open spec fn view(&self) -> ActionView {
        match *self {
            BatchAction::CheckPath { path } => ActionView::CheckPath { path: path@ },
            BatchAction::Run { command } => ActionView::Run { command: command.deep_view() },
            BatchAction::Done => ActionView::Done,
        }
    }
}

/// The number of successes among `outcomes`.
pub open spec fn succeeded(outcomes: Seq<OutcomeView>) -> nat
    decreases outcomes.len(),
{
    if outcomes.len() == 0 {
        0
    } else if outcomes.last() is Success {
        succeeded(outcomes.drop_last()) + 1
    } else {
        succeeded(outcomes.drop_last())
    }
}

/// The number of failures among `outcomes`.
pub open spec fn failed(outcomes: Seq<OutcomeView>) -> nat
    decreases outcomes.len(),
{
    if outcomes.len() == 0 {
        0
    } else if outcomes.last() is Failure {
        failed(outcomes.drop_last()) + 1
    } else {
        failed(outcomes.drop_last())
    }
}

/// The outcome of a git command that has run: success where it exited
/// successfully, else failure with what it wrote to standard error, trimmed.
pub open spec fn outcome_of(success: bool, stderr: Seq<char>) -> OutcomeView {
    if success {
        OutcomeView::Success
    } else {
        OutcomeView::Failure(trim(stderr))
    }
}

/// The outcome recorded for a worktree whose directory does not exist.
pub open spec fn path_not_found() -> OutcomeView {
    OutcomeView::Failure("path not found"@)
}

/// The line that reports one outcome.
pub open spec fn result_line(outcome: OutcomeView) -> LineView {
    match outcome {
        OutcomeView::Success => line(LineKind::Deleted, Seq::empty()),
        OutcomeView::Failure(reason) => line(LineKind::NotDeleted, reason),
    }
}

/// The paths of the worktrees `names` of the repository at `git_root`.
pub open spec fn worktree_paths(git_root: Seq<char>, names: Seq<Seq<char>>) -> Seq<Seq<char>> {
    names.map_values(|name: Seq<char>| worktree_path(git_root, name))
}

/// The model of a [`Batch`]: what it deletes and how far it has come.
pub struct BatchView {
    pub target: TargetView,
    pub force: bool,
    /// The names to delete, in the order in which they are processed.
    pub names: Seq<Seq<char>>,
    /// What git is handed for each name: the path of a worktree, or the name
    /// of a branch.
    pub subjects: Seq<Seq<char>>,
    /// Whether the directory of the current worktree was found to exist.
    pub path_checked: bool,
    /// The outcomes so far, one for each name dealt with, in order.
    pub outcomes: Seq<OutcomeView>,
}

impl BatchView {
    /// The state at which a batch over `names` begins.
    pub open spec fn begin(
        target: TargetView,
        force: bool,
        names: Seq<Seq<char>>,
        subjects: Seq<Seq<char>>,
    ) -> BatchView {
        BatchView { target, force, names, subjects, path_checked: false, outcomes: Seq::empty() }
    }

    /// What holds of every state of a batch.
    pub open spec fn wf(self) -> bool {
        &&& self.subjects.len() == self.names.len()
        &&& self.outcomes.len() <= self.names.len()
        &&& self.path_checked ==> self.target is Worktrees && self.outcomes.len()
            < self.names.len()
    }

    /// The number of names dealt with.
    pub open spec fn position(self) -> int {
        self.outcomes.len() as int
    }

    /// Whether every name has been dealt with.
    pub open spec fn finished(self) -> bool {
        self.outcomes.len() >= self.names.len()
    }

    /// What is to be done next.
    pub open spec fn action(self) -> ActionView {
        if self.finished() {
            ActionView::Done
        } else if self.target is Worktrees && !self.path_checked {
            ActionView::CheckPath { path: self.subjects[self.position()] }
        } else {
            ActionView::Run {
                command: delete_args(self.target, self.subjects[self.position()], self.force),
            }
        }
    }

    /// The name whose deletion is to be announced now, if any: the current
    /// one, before anything was done for it.
    pub open spec fn announcement(self) -> Option<LineView> {
        if self.finished() || self.path_checked {
            None
        } else {
            Some(line(LineKind::Deleting, self.names[self.position()]))
        }
    }

    /// The state after `outcome` was recorded for the current name.
    pub open spec fn record(self, outcome: OutcomeView) -> BatchView {
        BatchView { path_checked: false, outcomes: self.outcomes.push(outcome), ..self }
    }

    /// The state after `event`, and the lines to print. An event that does
    /// not answer the pending action changes nothing.
    pub open spec fn step(self, event: EventView) -> (BatchView, Seq<LineView>) {
        match (self.action(), event) {
            (ActionView::CheckPath { .. }, EventView::PathChecked { exists }) => if exists {
                (BatchView { path_checked: true, ..self }, Seq::empty())
            } else {
                (self.record(path_not_found()), seq![result_line(path_not_found())])
            },
            (ActionView::Run { .. }, EventView::Finished { result }) => (
                self.record(result),
                seq![result_line(result)],
            ),
            _ => (self, Seq::empty()),
        }
    }

    /// The state after a run of events, handled in order.
    pub open spec fn run(self, events: Seq<EventView>) -> BatchView
        decreases events.len(),
    {
        if events.len() == 0 {
            self
        } else {
            self.run(events.drop_last()).step(events.last()).0
        }
    }
}

/// How far a batch has come.
struct Progress {
    path_checked: bool,
    deleted: usize,
    failed: usize,
    outcomes: Ghost<Seq<OutcomeView>>,
}

/// A batch of deletions in progress.
pub struct Batch {
    target: Target,
    force: bool,
    names: Vec<String>,
    subjects: Vec<String>,
    progress: Progress,
}

impl View for Batch {
    type V = BatchView;

    closed spec fn view(&self) -> BatchView {
        BatchView {
            target: self.target@,
            force: self.force,
            names: self.names.deep_view(),
            subjects: self.subjects.deep_view(),
            path_checked: self.progress.path_checked,
            outcomes: self.progress.outcomes@,
        }
    }
}

/// Every success and every failure is counted once.
pub proof fn lemma_tally(outcomes: Seq<OutcomeView>)
    ensures
        succeeded(outcomes) + failed(outcomes) == outcomes.len(),
    decreases outcomes.len(),
{
    if outcomes.len() > 0 {
        lemma_tally(outcomes.drop_last());
    }
}

/// Reads the result of a git command that has run.
pub fn command_result(success: bool, stderr: &str) -> (r: GitCommandResult)
    ensures
        r@ == outcome_of(success, stderr@),
{
    if success {
        GitCommandResult::Success
    } else {
        let chars = to_chars(stderr);
        assert(chars@.subrange(0, chars@.len() as int) == chars@);
        let (a, b) = trim_range(&chars, 0, chars.len());
        GitCommandResult::Failure(copy_range(stderr, a, b))
    }
}

/// The line that reports one outcome.
pub fn deletion_result(result: &GitCommandResult) -> (out: Line)
    ensures
        out@ == result_line(result@),
{
    match result {
        GitCommandResult::Success => Line { kind: LineKind::Deleted, text: String::new() },
        GitCommandResult::Failure(reason) => Line {
            kind: LineKind::NotDeleted,
            text: reason.clone(),
        },
    }
}

/// The outcome recorded for a worktree of a repository that has no name, so
/// that the path of the worktree cannot be derived.
pub open spec fn no_repository_name() -> OutcomeView {
    OutcomeView::Failure(error_message(CleanErrorView::NoRepositoryName))
}

/// The state at which the deletion of the worktrees `names` of the repository
/// at `git_root` begins. Where the repository has no name, every worktree has
/// failed already, for that reason and in the order of `names`, and nothing is
/// left to do.
pub open spec fn worktree_batch(
    names: Seq<Seq<char>>,
    force: bool,
    git_root: Seq<char>,
) -> BatchView {
    if file_name(git_root).len() > 0 {
        BatchView::begin(TargetView::Worktrees, force, names, worktree_paths(git_root, names))
    } else {
        BatchView {
            target: TargetView::Worktrees,
            force,
            names,
            subjects: names,
            path_checked: false,
            outcomes: names.map_values(|name: Seq<char>| no_repository_name()),
        }
    }
}

/// The lines that report `outcomes`, one for each, in order.
pub open spec fn outcome_lines(outcomes: Seq<OutcomeView>) -> Seq<LineView> {
    outcomes.map_values(|outcome: OutcomeView| result_line(outcome))
}

/// Where every outcome is a failure, all are counted as failed and none as
/// succeeded.
pub proof fn lemma_all_failures(outcomes: Seq<OutcomeView>)
    requires
        forall|i: int| 0 <= i < outcomes.len() ==> outcomes[i] is Failure,
    ensures
        succeeded(outcomes) == 0,
        failed(outcomes) == outcomes.len(),
    decreases outcomes.len(),
{
    if outcomes.len() > 0 {
        lemma_all_failures(outcomes.drop_last());
    }
}

/// Starts the deletion of the worktrees `names` of the repository at
/// `git_root`, and returns with the batch the lines to print before it is
/// run. Where the repository has no name to derive the paths of its
/// worktrees from, every worktree is counted as failed at once, with one line
/// each, and the batch is finished; no failure keeps the batch from being
/// summed up.
pub fn delete_worktrees(names: Vec<String>, force: bool, git_root: &str) -> (r: (Batch, Vec<Line>))
    ensures
        r.0@ == worktree_batch(names.deep_view(), force, git_root@),
        r.1.deep_view() == outcome_lines(
            worktree_batch(names.deep_view(), force, git_root@).outcomes,
        ),
{
    let mut lines: Vec<Line> = Vec::new();
    match get_worktree_base_path(git_root) {
        Ok(base) => {
            let mut paths: Vec<String> = Vec::new();
            let mut i: usize = 0;
            while i < names.len()
                invariant
                    i <= names.len(),
                    paths.len() == i,
                    base@ == worktree_base(git_root@),
                    forall|k: int|
                        0 <= k < i ==> (#[trigger] paths[k])@ == worktree_path(
                            git_root@,
                            names[k]@,
                        ),
                decreases names.len() - i,
            {
                paths.push(join_path(base.clone(), names[i].as_str()));
                i = i + 1;
            }
            assert(paths.deep_view() =~= worktree_paths(git_root@, names.deep_view()));
            assert(lines.deep_view() =~= outcome_lines(Seq::empty()));
            (Batch::begin(Target::Worktrees, force, names, paths), lines)
        },
        Err(e) => {
            let reason = e.message();
            let ghost outcomes = worktree_batch(names.deep_view(), force, git_root@).outcomes;
            let mut i: usize = 0;
            while i < names.len()
                invariant
                    i <= names.len(),
                    lines.len() == i,
                    reason@ == error_message(CleanErrorView::NoRepositoryName),
                    forall|k: int|
                        0 <= k < i ==> (#[trigger] lines[k])@ == result_line(no_repository_name()),
                decreases names.len() - i,
            {
                lines.push(Line { kind: LineKind::NotDeleted, text: reason.clone() });
                i = i + 1;
            }
            let failed = names.len();
            let subjects = copy_names(&names);
            proof {
                lemma_all_failures(outcomes);
                assert(lines.deep_view() =~= outcome_lines(outcomes));
            }
            let batch = Batch {
                target: Target::Worktrees,
                force,
                names,
                subjects,
                progress: Progress {
                    path_checked: false,
                    deleted: 0,
                    failed,
                    outcomes: Ghost(outcomes),
                },
            };
            (batch, lines)
        },
    }
}

/// Starts the deletion of the local branches `names`.
pub fn delete_local_branches(names: Vec<String>, force: bool) -> (batch: Batch)
    ensures
        batch@ == BatchView::begin(
            TargetView::Branches { scope: ScopeView::Local },
            force,
            names.deep_view(),
            names.deep_view(),
        ),
{
    let subjects = copy_names(&names);
    Batch::begin(Target::Branches { scope: BranchScope::Local }, force, names, subjects)
}

/// Starts the deletion of the branches `names` on the remote `remote`.
pub fn delete_remote_branches(names: Vec<String>, remote: &str) -> (batch: Batch)
    ensures
        batch@ == BatchView::begin(
            TargetView::Branches { scope: ScopeView::Remote { remote: remote@ } },
            false,
            names.deep_view(),
            names.deep_view(),
        ),
{
    let subjects = copy_names(&names);
    Batch::begin(
        Target::Branches { scope: BranchScope::Remote { remote: remote.to_owned() } },
        false,
        names,
        subjects,
    )
}

impl Batch {
    #[verifier::type_invariant]
    spec fn counted(self) -> bool {
        &&& self@.wf()
        &&& self.progress.deleted == succeeded(self.progress.outcomes@)
        &&& self.progress.failed == failed(self.progress.outcomes@)
    }

    /// A batch over `names` that hands git the matching entry of `subjects`.
    fn begin(target: Target, force: bool, names: Vec<String>, subjects: Vec<String>) -> (batch:
        Batch)
        requires
            subjects.len() == names.len(),
        ensures
            batch@ == BatchView::begin(target@, force, names.deep_view(), subjects.deep_view()),
    {
        Batch {
            target,
            force,
            names,
            subjects,
            progress: Progress {
                path_checked: false,
                deleted: 0,
                failed: 0,
                outcomes: Ghost(Seq::empty()),
            },
        }
    }

    /// The number of names dealt with.
    fn position(&self) -> (n: usize)
        ensures
            n == self@.position(),
            n <= self.names.len(),
    {
        proof {
            use_type_invariant(self);
            lemma_tally(self.progress.outcomes@);
            assert(self.names.deep_view().len() == self.names.len());
        }
        self.progress.deleted + self.progress.failed
    }

    /// Whether every name has been dealt with.
    pub fn is_finished(&self) -> (b: bool)
        ensures
            b == self@.finished(),
    {
        self.position() >= self.names.len()
    }

    /// What the front end has to do next.
    pub fn action(&self) -> (a: BatchAction)
        ensures
            a@ == self@.action(),
            self@.wf(),
    {
        proof {
            use_type_invariant(self);
        }
        let at = self.position();
        if at >= self.names.len() {
            return BatchAction::Done;
        }
        let worktrees = match self.target {
            Target::Worktrees => true,
            _ => false,
        };
        if worktrees && !self.progress.path_checked {
            BatchAction::CheckPath { path: self.subjects[at].clone() }
        } else {
            BatchAction::Run {
                command: self.target.delete_command(self.subjects[at].as_str(), self.force),
            }
        }
    }

    /// The line that announces the deletion about to begin, if one begins now.
    pub fn announce(&self) -> (out: Option<Line>)
        ensures
            match out {
                Some(l) => self@.announcement() == Some(l@),
                None => self@.announcement().is_none(),
            },
    {
        let at = self.position();
        if at >= self.names.len() || self.progress.path_checked {
            None
        } else {
            Some(Line { kind: LineKind::Deleting, text: self.names[at].clone() })
        }
    }

    /// Counts `result` for the current name and moves on to the next.
    fn record(&mut self, result: GitCommandResult) -> (lines: Vec<Line>)
        requires
            !old(self)@.finished(),
        ensures
            final(self)@ == old(self)@.record(result@),
            lines.deep_view() == seq![result_line(result@)],
    {
        let ghost before = self.progress.outcomes@;
        let ghost outcomes = before.push(result@);
        proof {
            use_type_invariant(&*self);
            lemma_tally(before);
            assert(outcomes.drop_last() =~= before);
            assert(self.names.deep_view().len() == self.names.len());
        }
        let mut lines: Vec<Line> = Vec::new();
        lines.push(deletion_result(&result));
        assert(lines.deep_view() =~= seq![result_line(result@)]);
        let success = match result {
            GitCommandResult::Success => true,
            GitCommandResult::Failure(_) => false,
        };
        if success {
            self.progress = Progress {
                path_checked: false,
                deleted: self.progress.deleted + 1,
                failed: self.progress.failed,
                outcomes: Ghost(outcomes),
            };
        } else {
            self.progress = Progress {
                path_checked: false,
                deleted: self.progress.deleted,
                failed: self.progress.failed + 1,
                outcomes: Ghost(outcomes),
            };
        }
        lines
    }

    /// Takes in what the front end reports and returns the lines to print.
    /// The report of a missing directory and the result of a git command each
    /// settle the current name, whatever the result is, and the batch moves
    /// on. A report that does not answer the pending action is ignored.
    pub fn handle(&mut self, event: BatchEvent) -> (lines: Vec<Line>)
        ensures
            (final(self)@, lines.deep_view()) == old(self)@.step(event@),
            final(self)@.wf(),
    {
        let pending = self.action();
        match (pending, event) {
            (BatchAction::CheckPath { .. }, BatchEvent::PathChecked { exists }) => {
                if exists {
                    proof {
                        use_type_invariant(&*self);
                    }
                    self.progress = Progress {
                        path_checked: true,
                        deleted: self.progress.deleted,
                        failed: self.progress.failed,
                        outcomes: Ghost(self.progress.outcomes@),
                    };
                    let lines: Vec<Line> = Vec::new();
                    assert(lines.deep_view() =~= Seq::<LineView>::empty());
                    lines
                } else {
                    self.record(GitCommandResult::Failure("path not found".to_owned()))
                }
            },
            (BatchAction::Run { .. }, BatchEvent::Finished { result }) => self.record(result),
            _ => {
                let lines: Vec<Line> = Vec::new();
                assert(lines.deep_view() =~= Seq::<LineView>::empty());
                lines
            },
        }
    }

    /// The counts of successes and failures so far.
    pub fn summary(&self) -> (s: BatchSummary)
        ensures
            s.succeeded == succeeded(self@.outcomes),
            s.failed == failed(self@.outcomes),
            s.succeeded + s.failed == self@.position(),
    {
        proof {
            use_type_invariant(self);
            lemma_tally(self.progress.outcomes@);
        }
        BatchSummary { succeeded: self.progress.deleted, failed: self.progress.failed }
    }

    /// The lines that sum up the batch.
    pub fn summary_output(&self) -> (out: Vec<Line>)
        ensures
            out.deep_view() == summary_lines(
                succeeded(self@.outcomes),
                failed(self@.outcomes),
                summary_type(self@.target),
                place(self@.target),
            ),
    {
        let s = self.summary();
        let at = self.target.place();
        deletion_summary(s.succeeded, s.failed, self.target.summary_type(), at.as_str())
    }
}

/// A step keeps a batch well formed, keeps what it deletes, and never takes
/// back an outcome: the outcomes before it are a prefix of those after it.
pub proof fn lemma_step_keeps(batch: BatchView, event: EventView)
    requires
        batch.wf(),
    ensures
        batch.step(event).0.wf(),
        batch.step(event).0.names == batch.names,
        batch.step(event).0.subjects == batch.subjects,
        batch.step(event).0.target == batch.target,
        batch.step(event).0.force == batch.force,
        batch.outcomes.is_prefix_of(batch.step(event).0.outcomes),
        batch.step(event).0.outcomes.len() <= batch.outcomes.len() + 1,
{
    let after = batch.step(event).0;
    assert(batch.outcomes =~= after.outcomes.subrange(0, batch.outcomes.len() as int));
}

/// No failure ends a batch early: the result of a git command settles the
/// current name and the batch moves on by exactly one name, whether the
/// command succeeded or failed.
pub proof fn lemma_failure_tolerant(batch: BatchView, result: OutcomeView)
    requires
        batch.wf(),
        batch.action() is Run,
    ensures
        batch.step(EventView::Finished { result }).0.position() == batch.position() + 1,
        batch.step(EventView::Finished { result }).0.outcomes == batch.outcomes.push(result),
        succeeded(batch.step(EventView::Finished { result }).0.outcomes) == succeeded(
            batch.outcomes,
        ) + if result is Success {
            1nat
        } else {
            0nat
        },
        failed(batch.step(EventView::Finished { result }).0.outcomes) == failed(batch.outcomes)
            + if result is Failure {
            1nat
        } else {
            0nat
        },
{
    assert(batch.outcomes.push(result).drop_last() == batch.outcomes);
}

/// A worktree whose directory is missing is counted as failed with the reason
/// `path not found`, and git is not asked to remove it: the next action is
/// for the next name.
pub proof fn lemma_missing_path(batch: BatchView)
    requires
        batch.wf(),
        batch.action() is CheckPath,
    ensures
        batch.step(EventView::PathChecked { exists: false }).0.outcomes == batch.outcomes.push(
            path_not_found(),
        ),
        batch.step(EventView::PathChecked { exists: false }).0.position() == batch.position() + 1,
        !batch.step(EventView::PathChecked { exists: false }).0.path_checked,
        batch.step(EventView::PathChecked { exists: true }).0.action() == (ActionView::Run {
            command: delete_args(batch.target, batch.subjects[batch.position()], batch.force),
        }),
{
    assert(batch.outcomes.push(path_not_found()).drop_last() == batch.outcomes);
}

/// Whatever is reported in whatever order, a batch stays well formed and
/// keeps the outcomes it has; and once it is finished, every name has got
/// exactly one outcome, so that the counts of the summary add up to the
/// number of names.
pub proof fn lemma_all_attempted(start: BatchView, events: Seq<EventView>)
    requires
        start.wf(),
    ensures
        start.run(events).wf(),
        start.run(events).names == start.names,
        start.outcomes.is_prefix_of(start.run(events).outcomes),
        start.run(events).finished() ==> {
            &&& start.run(events).outcomes.len() == start.names.len()
            &&& succeeded(start.run(events).outcomes) + failed(start.run(events).outcomes)
                == start.names.len()
        },
    decreases events.len(),
{
    if events.len() > 0 {
        let before = start.run(events.drop_last());
        lemma_all_attempted(start, events.drop_last());
        lemma_step_keeps(before, events.last());
        let after = before.step(events.last()).0;
        assert(start.outcomes =~= after.outcomes.subrange(0, start.outcomes.len() as int)) by {
            assert(start.outcomes =~= before.outcomes.subrange(0, start.outcomes.len() as int));
            assert(before.outcomes =~= after.outcomes.subrange(0, before.outcomes.len() as int));
        }
    } else {
        assert(start.outcomes =~= start.outcomes.subrange(0, start.outcomes.len() as int));
    }
    lemma_tally(start.run(events).outcomes);
}

} // verus!
