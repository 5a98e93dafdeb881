//! Creating a project, step by step. The caller owns the file system: it
//! asks for the next action, carries it out and reports how that went. What
//! to do next, when to stop and what to report is decided here.

use crate::filesystem::{
    holds, lemma_perform_all_creates, lemma_perform_all_exists, lemma_perform_all_holds,
    lemma_perform_all_keeps, FsAction, FsActionView, Tree,
};
use crate::hardware::{DevBoard, Target};
use crate::new_command::{
    has_resources, new_command_outcome, project_plan, resources_dir, run_new_command,
    NewCommandError, NewCommandErrorView, ProjectSpec,
};
use crate::plan_proofs::{lemma_no_resources_no_directory, lemma_plan_distinct_paths};
use vstd::prelude::*;

verus! {

/// Why the file system did not carry out an action.
#[derive(Clone, Copy, Debug, PartialEq, Eq, Structural)]
pub enum IoFailure {
    /// It did not permit the action.
    PermissionDenied,
    /// Anything else.
    Other,
}

/// The error that a failed action ends project creation with. A directory
/// that may not be created is a matter of permission; every other failure is
/// reported as an I/O error. Each carries the action's path.
pub open spec fn failure_of(action: FsActionView, failure: IoFailure) -> NewCommandErrorView {
    match action {
        FsActionView::CreateDir { path } => match failure {
            IoFailure::PermissionDenied => NewCommandErrorView::InsufficientPermission { path },
            IoFailure::Other => NewCommandErrorView::Io { path },
        },
        FsActionView::WriteFile { path, .. } => NewCommandErrorView::Io { path },
    }
}

/// The error that a failed action ends project creation with.
pub fn action_failure(action: &FsAction, failure: IoFailure) -> (error: NewCommandError)
    ensures
        error@ == failure_of(action@, failure),
{
    match action {
        FsAction::CreateDir { path } => match failure {
            IoFailure::PermissionDenied => NewCommandError::InsufficientPermission {
                path: path.clone(),
            },
            IoFailure::Other => NewCommandError::Io { path: path.clone() },
        },
        FsAction::WriteFile { path, .. } => NewCommandError::Io { path: path.clone() },
    }
}

/// The state of one project creation.
pub struct Materializer {
    plan: Vec<FsAction>,
    performed: usize,
    failure: Option<NewCommandError>,
}

/// The mathematical value of a [`Materializer`]: the plan, how many of its
/// actions have succeeded, and the error that ended it, if one did.
pub struct MaterializerView {
    pub plan: Seq<FsActionView>,
    pub performed: nat,
    pub failure: Option<NewCommandErrorView>,
}

impl MaterializerView {
    /// The state before anything has been done.
    pub open spec fn start(
        name: Seq<char>,
        target: Target,
        dev_board: Option<DevBoard>,
        already_exists: bool,
    ) -> MaterializerView {
        match new_command_outcome(name, target, dev_board, already_exists) {
            Ok(plan) => MaterializerView { plan, performed: 0, failure: None },
            Err(error) => MaterializerView {
                plan: Seq::empty(),
                performed: 0,
                failure: Some(error),
            },
        }
    }

    /// No more actions have succeeded than the plan holds.
    pub open spec fn in_bounds(self) -> bool {
        self.performed <= self.plan.len()
    }

    /// An action is waiting to be carried out.
    pub open spec fn pending(self) -> bool {
        self.failure is None && self.performed < self.plan.len()
    }

    /// The action that is waiting.
    pub open spec fn next(self) -> FsActionView
        recommends
            self.pending(),
    {
        self.plan[self.performed as int]
    }

    /// The state after the file system has answered the waiting action.
    /// Success moves on to the next action. A failure ends the creation with
    /// its error and leaves what was made before in place. Where nothing was
    /// waiting, nothing changes.
    pub open spec fn record(self, answer: Result<(), IoFailure>) -> MaterializerView {
        if !self.pending() {
            self
        } else {
            match answer {
                Ok(_) => MaterializerView { performed: self.performed + 1, ..self },
                Err(failure) => MaterializerView {
                    failure: Some(failure_of(self.next(), failure)),
                    ..self
                },
            }
        }
    }

    /// How the creation ended: nothing while an action is waiting, else
    /// success or the error.
    pub open spec fn outcome(self) -> Option<Result<(), NewCommandErrorView>> {
        if self.pending() {
            None
        } else {
            match self.failure {
                Some(error) => Some(Err(error)),
                None => Some(Ok(())),
            }
        }
    }

    /// What the creation has made of `tree` so far.
    pub open spec fn tree_after(self, tree: Tree) -> Tree {
        tree.perform_all(self.plan.take(self.performed as int))
    }
}

impl View for Materializer {
    type V = MaterializerView;

    closed spec fn view(&self) -> MaterializerView {
        MaterializerView {
            plan: self.plan.deep_view(),
            performed: self.performed as nat,
            failure: match self.failure {
                Some(error) => Some(error@),
                None => None,
            },
        }
    }
}

impl Materializer {
    /// Starts the creation of a project. `already_exists` says whether
    /// anything exists at the path that is the project's name.
    pub fn begin(spec: ProjectSpec, already_exists: bool) -> (state: Materializer)
        ensures
            state@ == MaterializerView::start(
                spec.project_name@,
                spec.target,
                spec.dev_board,
                already_exists,
            ),
    {
        match run_new_command(spec.project_name, spec.target, spec.dev_board, already_exists) {
            Ok(plan) => Materializer { plan, performed: 0, failure: None },
            Err(error) => {
                let state = Materializer { plan: Vec::new(), performed: 0, failure: Some(error) };
                proof {
                    assert(state.plan.deep_view() =~= Seq::empty());
                }
                state
            },
        }
    }

    /// The action to carry out next; `None` once the creation has ended.
    pub fn next_action(&self) -> (next: Option<&FsAction>)
        ensures
            next matches Some(action) ==> self@.pending() && action@ == self@.next(),
            next is None ==> !self@.pending(),
    {
        if self.failure.is_none() && self.performed < self.plan.len() {
            Some(&self.plan[self.performed])
        } else {
            None
        }
    }

    /// Takes the file system's answer to the action that was waiting.
    pub fn record(&mut self, answer: Result<(), IoFailure>)
        ensures
            final(self)@ == old(self)@.record(answer),
    {
        if self.failure.is_none() && self.performed < self.plan.len() {
            match answer {
                Ok(_) => {
                    self.performed = self.performed + 1;
                },
                Err(failure) => {
                    self.failure = Some(action_failure(&self.plan[self.performed], failure));
                },
            }
        }
    }

    /// How the creation ended; `None` while an action is waiting.
    pub fn outcome(self) -> (ended: Option<Result<(), NewCommandError>>)
        ensures
            ended matches Some(Ok(_)) ==> self@.outcome() == Some(
                Ok::<(), NewCommandErrorView>(()),
            ),
            ended matches Some(Err(error)) ==> self@.outcome() == Some(
                Err::<(), NewCommandErrorView>(error@),
            ),
            ended is None ==> self@.outcome() is None,
    {
        match self.failure {
            Some(error) => Some(Err(error)),
            None => if self.performed < self.plan.len() {
                None
            } else {
                Some(Ok(()))
            },
        }
    }
}

/// A creation starts within its plan, and every answer keeps it there.
pub proof fn lemma_record_in_bounds(state: MaterializerView, answer: Result<(), IoFailure>)
    requires
        state.in_bounds(),
    ensures
        state.record(answer).in_bounds(),
{
}

/// A failure is final: once a creation has ended, no answer changes it.
pub proof fn lemma_ended_stays(state: MaterializerView, answer: Result<(), IoFailure>)
    requires
        state.outcome() is Some,
    ensures
        state.record(answer) == state,
{
}

/// A failure undoes nothing: what the creation had made before is still
/// there afterwards.
pub proof fn lemma_failure_keeps_tree(state: MaterializerView, failure: IoFailure, tree: Tree)
    ensures
        state.record(Err(failure)).tree_after(tree) == state.tree_after(tree),
{
}

/// Creation refuses to touch what exists. Take any tree and create a project
/// in it. Unless the very first step, making the project's directory, could
/// not be done, something exists at the project's path from then on, however
/// far the creation got, and to create a project of that name again is
/// refused with the path, whatever hardware it is for.
pub proof fn lemma_second_run_rejected(
    tree: Tree,
    name: Seq<char>,
    target: Target,
    dev_board: Option<DevBoard>,
    performed: nat,
    again_target: Target,
    again_board: Option<DevBoard>,
)
    requires
        performed <= MaterializerView::start(
            name,
            target,
            dev_board,
            tree.exists_at(name),
        ).plan.len(),
        tree.exists_at(name) || performed >= 1,
    ensures
        ({
            let first = MaterializerView::start(name, target, dev_board, tree.exists_at(name));
            let after = MaterializerView { performed, ..first }.tree_after(tree);
            let again = MaterializerView::start(
                name,
                again_target,
                again_board,
                after.exists_at(name),
            );
            &&& after.exists_at(name)
            &&& again.outcome() == Some(
                Err::<(), NewCommandErrorView>(
                    NewCommandErrorView::DirectoryAlreadyExists { path: name },
                ),
            )
        }),
{
    let first = MaterializerView::start(name, target, dev_board, tree.exists_at(name));
    let done = first.plan.take(performed as int);
    if tree.exists_at(name) {
        lemma_perform_all_keeps(tree, done, name);
    } else {
        assert(first.plan == project_plan(name, target, dev_board));
        assert(done[0] == first.plan[0]);
        assert(done[0].path() == name);
        lemma_perform_all_creates(tree, done, 0);
    }
}

/// A creation that ran to its end has made everything it planned: each
/// directory exists and each file holds exactly the bytes planned for it.
pub proof fn lemma_finished_tree_holds_plan(
    tree: Tree,
    name: Seq<char>,
    target: Target,
    dev_board: Option<DevBoard>,
    at: int,
)
    requires
        0 <= at < project_plan(name, target, dev_board).len(),
    ensures
        holds(
            tree.perform_all(project_plan(name, target, dev_board)),
            project_plan(name, target, dev_board)[at],
        ),
{
    lemma_plan_distinct_paths(name, target, dev_board);
    lemma_perform_all_holds(tree, project_plan(name, target, dev_board), at);
}

/// With hardware that comes with no resource, creating a project puts
/// nothing where its resources directory would be.
pub proof fn lemma_no_resources_tree(
    tree: Tree,
    name: Seq<char>,
    target: Target,
    dev_board: Option<DevBoard>,
    performed: nat,
)
    requires
        !has_resources(target, dev_board),
        !tree.exists_at(resources_dir(name)),
        performed <= project_plan(name, target, dev_board).len(),
    ensures
        !tree.perform_all(project_plan(name, target, dev_board).take(performed as int)).exists_at(
            resources_dir(name),
        ),
{
    let plan = project_plan(name, target, dev_board);
    let done = plan.take(performed as int);
    lemma_no_resources_no_directory(name, target, dev_board);
    if tree.perform_all(done).exists_at(resources_dir(name)) {
        lemma_perform_all_exists(tree, done, resources_dir(name));
        let at = choose|at: int|
            0 <= at < done.len() && (#[trigger] done[at]).path() == resources_dir(name);
        assert(plan[at].path() == resources_dir(name));
    }
}

} // verus!
