//! The application state: the active screen, one list with its selection per
//! screen, the dialog that is open and its text buffers, and the status line.

use crate::model::{AppModel, BranchInfoModel, CommitInfoModel, FileStatusModel};
use crate::view;
use std::path::PathBuf;
use vstd::prelude::*;

verus! {

/// `std::path::PathBuf`: the state carries the repository path through and
/// never looks inside it.
#[verifier::external_type_specification]
#[verifier::external_body]
pub struct ExPathBuf(PathBuf);

/// The modal dialog that currently receives all key input.
#[derive(Debug, Clone, Copy, PartialEq, Eq, Structural)]
pub enum Dialog {
    Closed,
    Commit,
    BranchCreate,
    DeleteConfirm,
}

/// Everything the client shows and remembers between two events.
#[derive(Debug)]
pub struct App {
    pub current_view: view::View,
    pub repo_path: PathBuf,
    pub should_quit: bool,
    pub history_state: HistoryState,
    pub files_state: FilesState,
    pub branches_state: BranchesState,
    pub status_message: Option<String>,
    pub dialog: Dialog,
    pub commit_message: String,
    pub branch_creation: BranchCreation,
    pub delete_confirmation: String,
    pub branch_to_delete: Option<String>,
}

/// The commit list and its selection.
#[derive(Debug)]
pub struct HistoryState {
    pub selected: usize,
    pub commits: Vec<CommitInfo>,
}

/// A commit as the history lists it: the short id, the author, the date as
/// text, and the first line of the message.
#[derive(Debug, Clone)]
pub struct CommitInfo {
    pub id: String,
    pub author: String,
    pub date: String,
    pub message: String,
}

/// The list of changed files with its selection, and the diff of the
/// selected file with the offset of its first visible line.
#[derive(Debug)]
pub struct FilesState {
    pub selected: usize,
    pub files: Vec<FileStatus>,
    pub current_diff: Option<String>,
    pub diff_scroll: usize,
}

/// A changed path and its two-character status code.
#[derive(Debug, Clone)]
pub struct FileStatus {
    pub path: String,
    pub status: String,
}

/// The list of local branches with its selection, and the name of the
/// checked-out branch.
#[derive(Debug)]
pub struct BranchesState {
    pub selected: usize,
    pub branches: Vec<BranchInfo>,
    pub current_branch: String,
}

/// The branch dialog: the name typed so far, the entry of the branch list
/// that the new branch starts from, and which of the two is being edited.
#[derive(Debug)]
pub struct BranchCreation {
    pub new_branch_name: String,
    pub base_branch_selected: usize,
    pub selecting_base: bool,
}

/// A local branch and whether it is checked out.
#[derive(Debug, Clone)]
pub struct BranchInfo {
    pub name: String,
    pub is_current: bool,
}

impl DeepView for CommitInfo {
    type V = CommitInfoModel;

    open spec fn deep_view(&self) -> CommitInfoModel {
        CommitInfoModel {
            id: self.id@,
            author: self.author@,
            date: self.date@,
            message: self.message@,
        }
    }
}

impl DeepView for FileStatus {
    type V = FileStatusModel;

    open spec fn deep_view(&self) -> FileStatusModel {
        FileStatusModel { path: self.path@, status: self.status@ }
    }
}

impl DeepView for BranchInfo {
    type V = BranchInfoModel;

    open spec fn deep_view(&self) -> BranchInfoModel {
        BranchInfoModel { name: self.name@, is_current: self.is_current }
    }
}

impl View for App {
    type V = AppModel;

    open spec fn view(&self) -> AppModel {
        AppModel {
            current_view: self.current_view,
            repo_path: self.repo_path,
            should_quit: self.should_quit,
            commits: self.history_state.commits.deep_view(),
            history_selected: self.history_state.selected as nat,
            files: self.files_state.files.deep_view(),
            files_selected: self.files_state.selected as nat,
            current_diff: self.files_state.current_diff.deep_view(),
            diff_scroll: self.files_state.diff_scroll as nat,
            branches: self.branches_state.branches.deep_view(),
            branches_selected: self.branches_state.selected as nat,
            current_branch: self.branches_state.current_branch@,
            status_message: self.status_message.deep_view(),
            dialog: self.dialog,
            commit_message: self.commit_message@,
            new_branch_name: self.branch_creation.new_branch_name@,
            base_branch_selected: self.branch_creation.base_branch_selected as nat,
            selecting_base: self.branch_creation.selecting_base,
            delete_confirmation: self.delete_confirmation@,
            branch_to_delete: self.branch_to_delete.deep_view(),
        }
    }
}

impl App {
    /// A fresh state: the files screen, empty lists, no dialog, no status.
    pub fn new(repo_path: PathBuf) -> (app: Self)
        ensures
            app@ == AppModel::initial(repo_path),
            app@.wf(),
    {
        Self {
            current_view: view::View::Files,
            repo_path,
            should_quit: false,
            dialog: Dialog::Closed,
            branch_creation: BranchCreation {
                new_branch_name: String::new(),
                base_branch_selected: 0,
                selecting_base: false,
            },
            history_state: HistoryState { selected: 0, commits: Vec::new() },
            files_state: FilesState {
                selected: 0,
                files: Vec::new(),
                current_diff: None,
                diff_scroll: 0,
            },
            branches_state: BranchesState {
                selected: 0,
                branches: Vec::new(),
                current_branch: String::new(),
            },
            status_message: None,
            commit_message: String::new(),
            delete_confirmation: String::new(),
            branch_to_delete: None,
        }
    }

    /// Makes `view` the active screen.
    pub fn switch_view(&mut self, view: view::View)
        ensures
            final(self)@ == old(self)@.switch_view(view),
            old(self)@.wf() ==> final(self)@.wf(),
    {
        self.current_view = view;
    }

    /// Moves the active screen's selection one item down, stopping at the last item.
    pub fn next_item(&mut self)
        ensures
            final(self)@ == old(self)@.next_item(),
            old(self)@.wf() ==> final(self)@.wf(),
    {
        match self.current_view {
            view::View::History => {
                let len = self.history_state.commits.len();
                if len > 0 {
                    self.history_state.selected = step_down(self.history_state.selected, len);
                }
            },
            view::View::Files => {
                let len = self.files_state.files.len();
                if len > 0 {
                    self.files_state.selected = step_down(self.files_state.selected, len);
                }
            },
            view::View::Branches => {
                let len = self.branches_state.branches.len();
                if len > 0 {
                    self.branches_state.selected = step_down(self.branches_state.selected, len);
                }
            },
        }
    }

    /// Moves the active screen's selection one item up, stopping at the first item.
    pub fn previous_item(&mut self)
        ensures
            final(self)@ == old(self)@.previous_item(),
            old(self)@.wf() ==> final(self)@.wf(),
    {
        match self.current_view {
            view::View::History => {
                if self.history_state.commits.len() > 0 && self.history_state.selected > 0 {
                    self.history_state.selected -= 1;
                }
            },
            view::View::Files => {
                if self.files_state.files.len() > 0 && self.files_state.selected > 0 {
                    self.files_state.selected -= 1;
                }
            },
            view::View::Branches => {
                if self.branches_state.branches.len() > 0 && self.branches_state.selected > 0 {
                    self.branches_state.selected -= 1;
                }
            },
        }
    }

    /// Replaces the status line.
    pub fn set_status(&mut self, message: String)
        ensures
            final(self)@ == old(self)@.set_status(message@),
            old(self)@.wf() ==> final(self)@.wf(),
    {
        self.status_message = Some(message);
    }

    /// Scrolls the diff one line up, stopping at the top.
    pub fn scroll_diff_up(&mut self)
        ensures
            final(self)@ == old(self)@.scroll_diff_up(1),
            old(self)@.wf() ==> final(self)@.wf(),
    {
        if self.files_state.diff_scroll > 0 {
            self.files_state.diff_scroll -= 1;
        }
    }

    /// Scrolls the diff one line down; the offset has no bound but the machine's.
    pub fn scroll_diff_down(&mut self)
        ensures
            final(self)@ == old(self)@.scroll_diff_down(1),
            old(self)@.wf() ==> final(self)@.wf(),
    {
        if self.files_state.diff_scroll < usize::MAX {
            self.files_state.diff_scroll += 1;
        }
    }

    /// Scrolls the diff back to its top.
    pub fn reset_diff_scroll(&mut self)
        ensures
            final(self)@ == old(self)@.reset_diff_scroll(),
            old(self)@.wf() ==> final(self)@.wf(),
    {
        self.files_state.diff_scroll = 0;
    }
}

/// The selection after one step down in a list of `len` items.
fn step_down(selected: usize, len: usize) -> (next: usize)
    requires
        len > 0,
    ensures
        next as nat == crate::model::step_down(selected as nat, len as nat),
{
    if selected < len - 1 {
        selected + 1
    } else {
        len - 1
    }
}

} // verus!
