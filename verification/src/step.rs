//! The protocol between the controller and the event loop. The controller
//! never calls the repository itself: each of its functions returns a `Step`
//! that names the one call to make next, and the loop hands the result of that
//! call to the function that takes it.

use crate::model::{ActionModel, StepModel};
use vstd::prelude::*;

verus! {

/// What remains to be done after a refresh has gone through.
#[derive(Debug, Clone, Copy, PartialEq, Eq, Structural)]
pub enum Then {
    /// Nothing.
    Stop,
    /// Refresh the file list as well.
    RefreshFiles,
    /// Report the refresh on the status line.
    ReportRefreshed,
}

/// A call that changes the repository or talks to the remote. Its result goes
/// to `finish_action`.
#[derive(Debug, Clone)]
pub enum Action {
    StageFile(String),
    StageAll,
    Commit(String),
    CreateBranch { name: String, base: String },
    PushBranch(String),
    CheckoutBranch(String),
    DeleteBranch(String),
    Push,
    Pull,
    Sync,
}

/// The one thing the event loop has to do next.
#[derive(Debug)]
pub enum Step {
    /// Nothing is left to do for this event.
    Idle,
    /// Perform the action; its result goes to `finish_action`.
    Run(Action),
    /// Read the working tree status; the result goes to `refresh_files`.
    LoadStatus(Then),
    /// Read the diff of the file at this path; the result goes to `update_file_diff`.
    LoadDiff(String, Then),
    /// Read this many of the latest commits; the result goes to `refresh_history`.
    LoadCommits(usize, Then),
    /// Read the local branches; the result goes to `refresh_branches`.
    LoadBranches(Then),
    /// Read the name of the checked-out branch; the result goes to `refresh_current_branch`.
    LoadCurrentBranch(Then),
}

impl View for Action {
    type V = ActionModel;

    open spec fn view(&self) -> ActionModel {
        match self {
            Action::StageFile(path) => ActionModel::StageFile(path@),
            Action::StageAll => ActionModel::StageAll,
            Action::Commit(message) => ActionModel::Commit(message@),
            Action::CreateBranch { name, base } => ActionModel::CreateBranch {
                name: name@,
                base: base@,
            },
            Action::PushBranch(name) => ActionModel::PushBranch(name@),
            Action::CheckoutBranch(name) => ActionModel::CheckoutBranch(name@),
            Action::DeleteBranch(name) => ActionModel::DeleteBranch(name@),
            Action::Push => ActionModel::Push,
            Action::Pull => ActionModel::Pull,
            Action::Sync => ActionModel::Sync,
        }
    }
}

impl View for Step {
    type V = StepModel;

    open spec fn view(&self) -> StepModel {
        match self {
            Step::Idle => StepModel::Idle,
            Step::Run(action) => StepModel::Run(action@),
            Step::LoadStatus(then) => StepModel::LoadStatus(*then),
            Step::LoadDiff(path, then) => StepModel::LoadDiff(path@, *then),
            Step::LoadCommits(limit, then) => StepModel::LoadCommits(*limit as nat, *then),
            Step::LoadBranches(then) => StepModel::LoadBranches(*then),
            Step::LoadCurrentBranch(then) => StepModel::LoadCurrentBranch(*then),
        }
    }
}

impl Action {
    /// Whether the call may prompt on the terminal and block on the network:
    /// the event loop hands the terminal back before such a call and takes it
    /// again when the call has returned, whatever it returned.
    pub fn suspends_terminal(&self) -> (r: bool)
        ensures
            r == self@.suspends_terminal(),
    {
        match self {
            Action::Push | Action::Pull | Action::Sync | Action::PushBranch(_) => true,
            _ => false,
        }
    }
}

} // verus!
