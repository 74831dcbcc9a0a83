use git_tui::app::{App, BranchInfo, CommitInfo, Dialog, FileStatus};
use git_tui::view::View;
use std::path::PathBuf;

fn state_app() -> App {
    App::new(PathBuf::from("/tmp/repo"))
}

fn state_files(n: usize) -> Vec<FileStatus> {
    (0..n).map(|i| FileStatus { path: format!("f{}", i), status: " M".to_string() }).collect()
}

fn state_commits(n: usize) -> Vec<CommitInfo> {
    (0..n)
        .map(|i| CommitInfo {
            id: format!("{:07}", i),
            author: "a".to_string(),
            date: "d".to_string(),
            message: "m".to_string(),
        })
        .collect()
}

fn state_branches(n: usize) -> Vec<BranchInfo> {
    (0..n).map(|i| BranchInfo { name: format!("b{}", i), is_current: i == 0 }).collect()
}

#[test]
fn new_state_is_empty_and_on_files() {
    let app = state_app();
    assert_eq!(app.current_view, View::Files);
    assert_eq!(app.repo_path, PathBuf::from("/tmp/repo"));
    assert!(!app.should_quit);
    assert_eq!(app.dialog, Dialog::Closed);
    assert_eq!(app.history_state.selected, 0);
    assert!(app.history_state.commits.is_empty());
    assert_eq!(app.files_state.selected, 0);
    assert!(app.files_state.files.is_empty());
    assert!(app.files_state.current_diff.is_none());
    assert_eq!(app.files_state.diff_scroll, 0);
    assert_eq!(app.branches_state.selected, 0);
    assert!(app.branches_state.branches.is_empty());
    assert_eq!(app.branches_state.current_branch, "");
    assert!(app.status_message.is_none());
    assert_eq!(app.commit_message, "");
    assert_eq!(app.branch_creation.new_branch_name, "");
    assert_eq!(app.branch_creation.base_branch_selected, 0);
    assert!(!app.branch_creation.selecting_base);
    assert_eq!(app.delete_confirmation, "");
    assert!(app.branch_to_delete.is_none());
}

#[test]
fn switch_view_changes_only_the_view() {
    let mut app = state_app();
    app.files_state.files = state_files(2);
    app.files_state.selected = 1;
    app.switch_view(View::History);
    assert_eq!(app.current_view, View::History);
    app.switch_view(View::Branches);
    assert_eq!(app.current_view, View::Branches);
    app.switch_view(View::Files);
    assert_eq!(app.current_view, View::Files);
    assert_eq!(app.files_state.selected, 1);
    assert_eq!(app.files_state.files.len(), 2);
}

#[test]
fn next_item_stops_at_the_last_item() {
    let mut app = state_app();
    app.files_state.files = state_files(3);
    app.next_item();
    assert_eq!(app.files_state.selected, 1);
    app.next_item();
    assert_eq!(app.files_state.selected, 2);
    app.next_item();
    assert_eq!(app.files_state.selected, 2);
}

#[test]
fn previous_item_stops_at_the_first_item() {
    let mut app = state_app();
    app.files_state.files = state_files(3);
    app.files_state.selected = 2;
    app.previous_item();
    assert_eq!(app.files_state.selected, 1);
    app.previous_item();
    assert_eq!(app.files_state.selected, 0);
    app.previous_item();
    assert_eq!(app.files_state.selected, 0);
}

#[test]
fn moves_on_an_empty_list_change_nothing() {
    for view in [View::Files, View::History, View::Branches] {
        let mut app = state_app();
        app.switch_view(view);
        app.next_item();
        app.previous_item();
        app.next_item();
        assert_eq!(app.files_state.selected, 0);
        assert_eq!(app.history_state.selected, 0);
        assert_eq!(app.branches_state.selected, 0);
    }
}

#[test]
fn moves_act_on_the_list_of_the_active_view_only() {
    let mut app = state_app();
    app.files_state.files = state_files(3);
    app.history_state.commits = state_commits(4);
    app.branches_state.branches = state_branches(2);
    app.switch_view(View::History);
    app.next_item();
    app.next_item();
    assert_eq!(app.history_state.selected, 2);
    assert_eq!(app.files_state.selected, 0);
    assert_eq!(app.branches_state.selected, 0);
    app.switch_view(View::Branches);
    app.next_item();
    app.next_item();
    assert_eq!(app.branches_state.selected, 1);
    assert_eq!(app.history_state.selected, 2);
    app.previous_item();
    assert_eq!(app.branches_state.selected, 0);
}

#[test]
fn any_run_of_moves_keeps_the_selection_in_the_list() {
    for len in 0..5usize {
        for pattern in 0..64u32 {
            let mut app = state_app();
            app.files_state.files = state_files(len);
            for bit in 0..6 {
                if pattern & (1 << bit) != 0 {
                    app.next_item();
                } else {
                    app.previous_item();
                }
                if len == 0 {
                    assert_eq!(app.files_state.selected, 0);
                } else {
                    assert!(app.files_state.selected < len);
                }
            }
        }
    }
}

#[test]
fn single_item_list_keeps_selection_at_zero() {
    let mut app = state_app();
    app.files_state.files = state_files(1);
    app.next_item();
    assert_eq!(app.files_state.selected, 0);
    app.previous_item();
    assert_eq!(app.files_state.selected, 0);
}

#[test]
fn set_status_overwrites_the_previous_message() {
    let mut app = state_app();
    app.set_status("first".to_string());
    assert_eq!(app.status_message.as_deref(), Some("first"));
    app.set_status("second".to_string());
    assert_eq!(app.status_message.as_deref(), Some("second"));
}

#[test]
fn scroll_diff_up_stops_at_the_top() {
    let mut app = state_app();
    app.files_state.diff_scroll = 2;
    app.scroll_diff_up();
    assert_eq!(app.files_state.diff_scroll, 1);
    app.scroll_diff_up();
    assert_eq!(app.files_state.diff_scroll, 0);
    app.scroll_diff_up();
    assert_eq!(app.files_state.diff_scroll, 0);
}

#[test]
fn scroll_diff_down_adds_one_line() {
    let mut app = state_app();
    app.scroll_diff_down();
    app.scroll_diff_down();
    app.scroll_diff_down();
    assert_eq!(app.files_state.diff_scroll, 3);
}

#[test]
fn scroll_diff_down_stops_at_the_largest_offset() {
    let mut app = state_app();
    app.files_state.diff_scroll = usize::MAX - 1;
    app.scroll_diff_down();
    assert_eq!(app.files_state.diff_scroll, usize::MAX);
    app.scroll_diff_down();
    assert_eq!(app.files_state.diff_scroll, usize::MAX);
}

#[test]
fn reset_diff_scroll_goes_back_to_the_top() {
    let mut app = state_app();
    app.files_state.diff_scroll = 41;
    app.reset_diff_scroll();
    assert_eq!(app.files_state.diff_scroll, 0);
}
