use git_tui::app::{App, BranchInfo, CommitInfo, FileStatus};
use git_tui::input::{finish_action, handle_key_event, Key};
use git_tui::refresh::{
    proceed, refresh_branches, refresh_current_branch, refresh_current_view, refresh_files,
    refresh_history, request_file_diff, update_file_diff,
};
use git_tui::step::{Action, Step, Then};
use git_tui::view::View;
use std::path::PathBuf;

fn refresh_app() -> App {
    App::new(PathBuf::from("."))
}

fn refresh_file_list(names: &[&str]) -> Vec<FileStatus> {
    names.iter().map(|n| FileStatus { path: n.to_string(), status: " M".to_string() }).collect()
}

fn refresh_commit_list(n: usize) -> Vec<CommitInfo> {
    (0..n)
        .map(|i| CommitInfo {
            id: format!("{:07x}", i),
            author: "ann".to_string(),
            date: "2024-01-01 00:00:00".to_string(),
            message: format!("commit {}", i),
        })
        .collect()
}

fn refresh_branch_list(names: &[&str], current: &str) -> Vec<BranchInfo> {
    names.iter().map(|n| BranchInfo { name: n.to_string(), is_current: *n == current }).collect()
}

#[test]
fn refresh_files_replaces_the_list_and_asks_for_the_diff() {
    let mut app = refresh_app();
    let step = refresh_files(&mut app, Ok(refresh_file_list(&["a", "b"])), Then::Stop);
    assert_eq!(app.files_state.files.len(), 2);
    assert_eq!(app.files_state.files[1].path, "b");
    assert_eq!(app.files_state.selected, 0);
    assert!(matches!(step, Step::LoadDiff(ref p, Then::Stop) if p == "a"));
}

#[test]
fn refresh_keeps_a_selection_that_still_fits() {
    let mut app = refresh_app();
    refresh_files(&mut app, Ok(refresh_file_list(&["a", "b", "c", "d"])), Then::Stop);
    app.files_state.selected = 2;
    let step = refresh_files(&mut app, Ok(refresh_file_list(&["x", "y", "z"])), Then::Stop);
    assert_eq!(app.files_state.selected, 2);
    assert!(matches!(step, Step::LoadDiff(ref p, Then::Stop) if p == "z"));
}

#[test]
fn refresh_moves_the_selection_to_the_last_item_of_a_shorter_list() {
    let mut app = refresh_app();
    refresh_files(&mut app, Ok(refresh_file_list(&["a", "b", "c", "d", "e"])), Then::Stop);
    app.files_state.selected = 4;
    let step = refresh_files(&mut app, Ok(refresh_file_list(&["a", "b"])), Then::Stop);
    assert_eq!(app.files_state.selected, 1);
    assert!(matches!(step, Step::LoadDiff(ref p, Then::Stop) if p == "b"));

    app.history_state.commits = refresh_commit_list(10);
    app.history_state.selected = 9;
    let step = refresh_history(&mut app, Ok(refresh_commit_list(3)), Then::Stop);
    assert_eq!(app.history_state.selected, 2);
    assert!(matches!(step, Step::Idle));

    app.branches_state.branches = refresh_branch_list(&["a", "b", "c"], "a");
    app.branches_state.selected = 2;
    let step = refresh_branches(&mut app, Ok(refresh_branch_list(&["a"], "a")), Then::Stop);
    assert_eq!(app.branches_state.selected, 0);
    assert!(matches!(step, Step::LoadCurrentBranch(Then::Stop)));
}

#[test]
fn refresh_to_an_empty_list_drops_the_diff_and_rests_the_selection() {
    let mut app = refresh_app();
    refresh_files(&mut app, Ok(refresh_file_list(&["a", "b", "c"])), Then::Stop);
    app.files_state.selected = 2;
    update_file_diff(&mut app, Ok("+line\n".to_string()), Then::Stop);
    assert_eq!(app.files_state.current_diff.as_deref(), Some("+line\n"));
    let step = refresh_files(&mut app, Ok(Vec::new()), Then::Stop);
    assert!(app.files_state.files.is_empty());
    assert_eq!(app.files_state.selected, 0);
    assert!(app.files_state.current_diff.is_none());
    assert!(matches!(step, Step::Idle));

    app.history_state.commits = refresh_commit_list(4);
    app.history_state.selected = 3;
    refresh_history(&mut app, Ok(Vec::new()), Then::Stop);
    assert_eq!(app.history_state.selected, 0);

    app.branches_state.branches = refresh_branch_list(&["a", "b"], "a");
    app.branches_state.selected = 1;
    refresh_branches(&mut app, Ok(Vec::new()), Then::Stop);
    assert_eq!(app.branches_state.selected, 0);
}

#[test]
fn a_refresh_that_fails_becomes_the_status_and_changes_nothing_else() {
    let mut app = refresh_app();
    refresh_files(&mut app, Ok(refresh_file_list(&["a", "b"])), Then::Stop);
    app.files_state.selected = 1;
    let step = refresh_files(&mut app, Err("index is locked".to_string()), Then::ReportRefreshed);
    assert!(matches!(step, Step::Idle));
    assert_eq!(app.status_message.as_deref(), Some("Refresh failed: index is locked"));
    assert_eq!(app.files_state.files.len(), 2);
    assert_eq!(app.files_state.selected, 1);

    let step = refresh_history(&mut app, Err("no head".to_string()), Then::Stop);
    assert!(matches!(step, Step::Idle));
    assert_eq!(app.status_message.as_deref(), Some("Refresh failed: no head"));

    let step = refresh_branches(&mut app, Err("bad ref".to_string()), Then::RefreshFiles);
    assert!(matches!(step, Step::Idle));
    assert_eq!(app.status_message.as_deref(), Some("Refresh failed: bad ref"));

    let step = refresh_current_branch(&mut app, Err("unborn".to_string()), Then::RefreshFiles);
    assert!(matches!(step, Step::Idle));
    assert_eq!(app.status_message.as_deref(), Some("Refresh failed: unborn"));
}

#[test]
fn update_file_diff_shows_the_diff_or_the_error() {
    let mut app = refresh_app();
    refresh_files(&mut app, Ok(refresh_file_list(&["a"])), Then::Stop);
    let step = update_file_diff(&mut app, Ok("@@ -1 +1 @@\n-a\n+b\n".to_string()), Then::Stop);
    assert!(matches!(step, Step::Idle));
    assert_eq!(app.files_state.current_diff.as_deref(), Some("@@ -1 +1 @@\n-a\n+b\n"));
    assert!(app.status_message.is_none());
    let step = update_file_diff(&mut app, Err("path not found".to_string()), Then::Stop);
    assert!(matches!(step, Step::Idle));
    assert_eq!(app.files_state.current_diff.as_deref(), Some("Error getting diff: path not found"));
    assert!(app.status_message.is_none());
}

#[test]
fn update_file_diff_without_a_selected_file_shows_nothing() {
    let mut app = refresh_app();
    let step = update_file_diff(&mut app, Ok("text".to_string()), Then::Stop);
    assert!(matches!(step, Step::Idle));
    assert!(app.files_state.current_diff.is_none());
}

#[test]
fn request_file_diff_names_the_selected_file() {
    let mut app = refresh_app();
    assert!(matches!(request_file_diff(&mut app, Then::Stop), Step::Idle));
    app.files_state.files = refresh_file_list(&["a", "b", "c"]);
    app.files_state.selected = 1;
    let step = request_file_diff(&mut app, Then::ReportRefreshed);
    assert!(matches!(step, Step::LoadDiff(ref p, Then::ReportRefreshed) if p == "b"));
    assert!(app.status_message.is_none());
}

#[test]
fn proceed_takes_up_what_remains() {
    let mut app = refresh_app();
    assert!(matches!(proceed(&mut app, Then::Stop), Step::Idle));
    assert!(app.status_message.is_none());
    assert!(matches!(proceed(&mut app, Then::RefreshFiles), Step::LoadStatus(Then::Stop)));
    assert!(app.status_message.is_none());
    assert!(matches!(proceed(&mut app, Then::ReportRefreshed), Step::Idle));
    assert_eq!(app.status_message.as_deref(), Some("Refreshed"));
}

#[test]
fn refresh_current_view_asks_for_the_list_of_the_active_view() {
    let mut app = refresh_app();
    assert!(matches!(refresh_current_view(&app, Then::Stop), Step::LoadStatus(Then::Stop)));
    app.switch_view(View::History);
    assert!(matches!(
        refresh_current_view(&app, Then::ReportRefreshed),
        Step::LoadCommits(100, Then::ReportRefreshed)
    ));
    app.switch_view(View::Branches);
    assert!(matches!(refresh_current_view(&app, Then::Stop), Step::LoadBranches(Then::Stop)));
}

#[test]
fn refresh_branches_is_followed_by_the_current_branch() {
    let mut app = refresh_app();
    let step =
        refresh_branches(&mut app, Ok(refresh_branch_list(&["dev", "main"], "main")), Then::Stop);
    assert!(matches!(step, Step::LoadCurrentBranch(Then::Stop)));
    assert_eq!(app.branches_state.branches.len(), 2);
    assert!(app.branches_state.branches[1].is_current);
    let step = refresh_current_branch(&mut app, Ok("main".to_string()), Then::Stop);
    assert!(matches!(step, Step::Idle));
    assert_eq!(app.branches_state.current_branch, "main");
}

#[test]
fn forced_refresh_reports_when_the_whole_chain_is_through() {
    let mut app = refresh_app();
    let step = handle_key_event(&mut app, Key::Char('r'));
    assert!(matches!(step, Step::LoadStatus(Then::ReportRefreshed)));
    assert!(app.status_message.is_none());
    let step = refresh_files(&mut app, Ok(refresh_file_list(&["a"])), Then::ReportRefreshed);
    assert!(matches!(step, Step::LoadDiff(ref p, Then::ReportRefreshed) if p == "a"));
    assert!(app.status_message.is_none());
    let step = update_file_diff(&mut app, Ok("diff".to_string()), Then::ReportRefreshed);
    assert!(matches!(step, Step::Idle));
    assert_eq!(app.status_message.as_deref(), Some("Refreshed"));
}

#[test]
fn forced_refresh_of_history_and_branches() {
    let mut app = refresh_app();
    app.switch_view(View::History);
    let step = handle_key_event(&mut app, Key::Char('r'));
    assert!(matches!(step, Step::LoadCommits(100, Then::ReportRefreshed)));
    let step = refresh_history(&mut app, Ok(refresh_commit_list(2)), Then::ReportRefreshed);
    assert!(matches!(step, Step::Idle));
    assert_eq!(app.status_message.as_deref(), Some("Refreshed"));

    let mut app = refresh_app();
    app.switch_view(View::Branches);
    let step = handle_key_event(&mut app, Key::Char('r'));
    assert!(matches!(step, Step::LoadBranches(Then::ReportRefreshed)));
    let step =
        refresh_branches(&mut app, Ok(refresh_branch_list(&["main"], "main")), Then::ReportRefreshed);
    assert!(matches!(step, Step::LoadCurrentBranch(Then::ReportRefreshed)));
    assert!(app.status_message.is_none());
    let step = refresh_current_branch(&mut app, Ok("main".to_string()), Then::ReportRefreshed);
    assert!(matches!(step, Step::Idle));
    assert_eq!(app.status_message.as_deref(), Some("Refreshed"));
}

#[test]
fn checkout_refreshes_branches_and_then_files() {
    let mut app = refresh_app();
    app.switch_view(View::Branches);
    let step = finish_action(&mut app, Action::CheckoutBranch("dev".to_string()), Ok(()));
    assert_eq!(app.status_message.as_deref(), Some("Checked out: dev"));
    assert!(matches!(step, Step::LoadBranches(Then::RefreshFiles)));
    let step =
        refresh_branches(&mut app, Ok(refresh_branch_list(&["dev", "main"], "dev")), Then::RefreshFiles);
    assert!(matches!(step, Step::LoadCurrentBranch(Then::RefreshFiles)));
    let step = refresh_current_branch(&mut app, Ok("dev".to_string()), Then::RefreshFiles);
    assert!(matches!(step, Step::LoadStatus(Then::Stop)));
    let step = refresh_files(&mut app, Ok(refresh_file_list(&["a"])), Then::Stop);
    assert!(matches!(step, Step::LoadDiff(ref p, Then::Stop) if p == "a"));
    let step = update_file_diff(&mut app, Ok("d".to_string()), Then::Stop);
    assert!(matches!(step, Step::Idle));
    assert_eq!(app.status_message.as_deref(), Some("Checked out: dev"));
    assert_eq!(app.branches_state.current_branch, "dev");
}
