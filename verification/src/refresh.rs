//! The refresh orchestrator: what the repository reports replaces the lists of
//! the state, and every selection is brought back into its list.

use crate::app::{App, BranchInfo, CommitInfo, FileStatus};
use crate::model::{reply_model, HISTORY_LIMIT};
use crate::step::{Step, Then};
use crate::text::join;
use crate::view;
use vstd::prelude::*;

verus! {

/// The selection brought back into a list of `len` items.
fn clamp_selection(selected: usize, len: usize) -> (clamped: usize)
    ensures
        clamped as nat == crate::model::clamp_selection(selected as nat, len as nat),
{
    if len == 0 {
        0
    } else if selected < len {
        selected
    } else {
        len - 1
    }
}

/// Takes up what remains after a refresh has gone through.
pub fn proceed(app: &mut App, then: Then) -> (step: Step)
    ensures
        final(app)@ == old(app)@.proceed(then).0,
        step@ == old(app)@.proceed(then).1,
        old(app)@.wf() ==> final(app)@.wf(),
{
    match then {
        Then::Stop => Step::Idle,
        Then::RefreshFiles => Step::LoadStatus(Then::Stop),
        Then::ReportRefreshed => {
            app.set_status("Refreshed".to_owned());
            Step::Idle
        },
    }
}

/// Reports a refresh that could not read from the repository.
fn refresh_failed(app: &mut App, error: String) -> (step: Step)
    ensures
        final(app)@ == old(app)@.refresh_failed(error@).0,
        step@ == old(app)@.refresh_failed(error@).1,
{
    app.set_status(join("Refresh failed: ", error.as_str()));
    Step::Idle
}

/// Asks for the diff of the selected file; with no file selected, goes on with
/// what remains.
pub fn request_file_diff(app: &mut App, then: Then) -> (step: Step)
    ensures
        final(app)@ == old(app)@.request_file_diff(then).0,
        step@ == old(app)@.request_file_diff(then).1,
        old(app)@.wf() ==> final(app)@.wf(),
{
    if app.files_state.selected < app.files_state.files.len() {
        let path = app.files_state.files[app.files_state.selected].path.clone();
        Step::LoadDiff(path, then)
    } else {
        proceed(app, then)
    }
}

/// Shows the diff that the repository returned for the selected file, or the
/// error in its place.
pub fn update_file_diff(app: &mut App, diff: Result<String, String>, then: Then) -> (step: Step)
    ensures
        final(app)@ == old(app)@.update_file_diff(reply_model(diff), then).0,
        step@ == old(app)@.update_file_diff(reply_model(diff), then).1,
        old(app)@.wf() ==> final(app)@.wf(),
{
    if app.files_state.selected < app.files_state.files.len() {
        let shown = match diff {
            Ok(text) => text,
            Err(error) => join("Error getting diff: ", error.as_str()),
        };
        app.files_state.current_diff = Some(shown);
    }
    proceed(app, then)
}

/// Replaces the file list by what the repository reported.
pub fn refresh_files(
    app: &mut App,
    status: Result<Vec<FileStatus>, String>,
    then: Then,
) -> (step: Step)
    ensures
        final(app)@ == old(app)@.refresh_files(reply_model(status), then).0,
        step@ == old(app)@.refresh_files(reply_model(status), then).1,
        old(app)@.wf() ==> final(app)@.wf(),
{
    match status {
        Ok(files) => {
            app.files_state.selected = clamp_selection(app.files_state.selected, files.len());
            if files.len() == 0 {
                app.files_state.current_diff = None;
            }
            app.files_state.files = files;
            request_file_diff(app, then)
        },
        Err(error) => refresh_failed(app, error),
    }
}

/// Replaces the commit list by what the repository reported.
pub fn refresh_history(
    app: &mut App,
    commits: Result<Vec<CommitInfo>, String>,
    then: Then,
) -> (step: Step)
    ensures
        final(app)@ == old(app)@.refresh_history(reply_model(commits), then).0,
        step@ == old(app)@.refresh_history(reply_model(commits), then).1,
        old(app)@.wf() ==> final(app)@.wf(),
{
    match commits {
        Ok(commits) => {
            app.history_state.selected = clamp_selection(app.history_state.selected, commits.len());
            app.history_state.commits = commits;
            proceed(app, then)
        },
        Err(error) => refresh_failed(app, error),
    }
}

/// Replaces the branch list by what the repository reported and asks for the
/// name of the checked-out branch.
pub fn refresh_branches(
    app: &mut App,
    branches: Result<Vec<BranchInfo>, String>,
    then: Then,
) -> (step: Step)
    ensures
        final(app)@ == old(app)@.refresh_branches(reply_model(branches), then).0,
        step@ == old(app)@.refresh_branches(reply_model(branches), then).1,
        old(app)@.wf() ==> final(app)@.wf(),
{
    match branches {
        Ok(branches) => {
            app.branches_state.selected = clamp_selection(
                app.branches_state.selected,
                branches.len(),
            );
            app.branches_state.branches = branches;
            Step::LoadCurrentBranch(then)
        },
        Err(error) => refresh_failed(app, error),
    }
}

/// Replaces the name of the checked-out branch by what the repository reported.
pub fn refresh_current_branch(
    app: &mut App,
    name: Result<String, String>,
    then: Then,
) -> (step: Step)
    ensures
        final(app)@ == old(app)@.refresh_current_branch(reply_model(name), then).0,
        step@ == old(app)@.refresh_current_branch(reply_model(name), then).1,
        old(app)@.wf() ==> final(app)@.wf(),
{
    match name {
        Ok(name) => {
            app.branches_state.current_branch = name;
            proceed(app, then)
        },
        Err(error) => refresh_failed(app, error),
    }
}

/// The first request of a refresh of the active screen.
pub fn refresh_current_view(app: &App, then: Then) -> (step: Step)
    ensures
        step@ == app@.refresh_current_view(then),
{
    match app.current_view {
        view::View::Files => Step::LoadStatus(then),
        view::View::History => Step::LoadCommits(HISTORY_LIMIT, then),
        view::View::Branches => Step::LoadBranches(then),
    }
}

} // verus!
