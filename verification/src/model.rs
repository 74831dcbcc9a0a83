//! The mathematical model of the controller: the state as plain values and
//! every transition as a function on it. The executable code is specified
//! against these functions.

use crate::app::Dialog;
use crate::input::{Key, Mouse};
use crate::step::Then;
use crate::text::{is_blank, lowercase, trim, without_last};
use crate::view;
use std::path::PathBuf;
use vstd::prelude::*;

verus! {

/// The number of commits that a refresh of the history asks for.
pub const HISTORY_LIMIT: usize = 100;

/// The number of lines that page-up and page-down move the diff.
pub const PAGE_STEP: usize = 10;

/// A commit as the history lists it.
#[verifier::ext_equal]
pub struct CommitInfoModel {
    pub id: Seq<char>,
    pub author: Seq<char>,
    pub date: Seq<char>,
    pub message: Seq<char>,
}

/// A changed path and its two-character status code.
#[verifier::ext_equal]
pub struct FileStatusModel {
    pub path: Seq<char>,
    pub status: Seq<char>,
}

/// A local branch and whether it is checked out.
#[verifier::ext_equal]
pub struct BranchInfoModel {
    pub name: Seq<char>,
    pub is_current: bool,
}

/// A call that changes the repository or talks to the remote.
#[verifier::ext_equal]
pub enum ActionModel {
    StageFile(Seq<char>),
    StageAll,
    Commit(Seq<char>),
    CreateBranch { name: Seq<char>, base: Seq<char> },
    PushBranch(Seq<char>),
    CheckoutBranch(Seq<char>),
    DeleteBranch(Seq<char>),
    Push,
    Pull,
    Sync,
}

/// What the event loop has to do next for the controller.
#[verifier::ext_equal]
pub enum StepModel {
    Idle,
    Run(ActionModel),
    LoadStatus(Then),
    LoadDiff(Seq<char>, Then),
    LoadCommits(nat, Then),
    LoadBranches(Then),
    LoadCurrentBranch(Then),
}

/// The whole state of the client as plain values.
#[verifier::ext_equal]
pub struct AppModel {
    pub current_view: view::View,
    pub repo_path: PathBuf,
    pub should_quit: bool,
    pub commits: Seq<CommitInfoModel>,
    pub history_selected: nat,
    pub files: Seq<FileStatusModel>,
    pub files_selected: nat,
    pub current_diff: Option<Seq<char>>,
    pub diff_scroll: nat,
    pub branches: Seq<BranchInfoModel>,
    pub branches_selected: nat,
    pub current_branch: Seq<char>,
    pub status_message: Option<Seq<char>>,
    pub dialog: Dialog,
    pub commit_message: Seq<char>,
    pub new_branch_name: Seq<char>,
    pub base_branch_selected: nat,
    pub selecting_base: bool,
    pub delete_confirmation: Seq<char>,
    pub branch_to_delete: Option<Seq<char>>,
}

/// A selection that points into a list of `len` items, or rests at 0 when the list is empty.
pub open spec fn selection_valid(selected: nat, len: nat) -> bool {
    if len == 0 {
        selected == 0
    } else {
        selected < len
    }
}

/// A selection brought back into a list of `len` items.
pub open spec fn clamp_selection(selected: nat, len: nat) -> nat {
    if len == 0 {
        0
    } else if selected < len {
        selected
    } else {
        (len - 1) as nat
    }
}

/// One step down in a list of `len` items, stopping at the last.
pub open spec fn step_down(selected: nat, len: nat) -> nat {
    if len == 0 {
        selected
    } else if selected + 1 < len {
        selected + 1
    } else {
        (len - 1) as nat
    }
}

/// One step up in a list of `len` items, stopping at the first.
pub open spec fn step_up(selected: nat, len: nat) -> nat {
    if len > 0 && selected > 0 {
        (selected - 1) as nat
    } else {
        selected
    }
}

/// The index of the first branch marked current, if there is one.
pub open spec fn first_current(branches: Seq<BranchInfoModel>) -> Option<nat>
    decreases branches.len(),
{
    if branches.len() == 0 {
        None
    } else if branches.first().is_current {
        Some(0)
    } else {
        match first_current(branches.drop_first()) {
            Some(i) => Some(i + 1),
            None => None,
        }
    }
}

/// Whether the text of the delete dialog confirms the deletion.
pub open spec fn confirms(text: Seq<char>) -> bool {
    let answer = lowercase(trim(text));
    answer == "y"@ || answer == "yes"@
}

/// What the repository answered, as plain values: the data, or the error text.
pub open spec fn reply_model<T: DeepView>(reply: Result<T, String>) -> Result<T::V, Seq<char>> {
    match reply {
        Ok(value) => Ok(value.deep_view()),
        Err(error) => Err(error@),
    }
}

/// The outcome of an action: nothing, or the error text.
pub open spec fn outcome_model(outcome: Result<(), String>) -> Result<(), Seq<char>> {
    match outcome {
        Ok(_) => Ok(()),
        Err(error) => Err(error@),
    }
}

impl ActionModel {
    /// Whether the call may prompt on the terminal and block on the network, so
    /// that the terminal has to be handed back for its duration.
    pub open spec fn suspends_terminal(self) -> bool {
        self is Push || self is Pull || self is Sync || self is PushBranch
    }
}

impl AppModel {
    /// The state at startup.
    pub open spec fn initial(repo_path: PathBuf) -> AppModel {
        AppModel {
            current_view: view::View::Files,
            repo_path,
            should_quit: false,
            commits: Seq::empty(),
            history_selected: 0,
            files: Seq::empty(),
            files_selected: 0,
            current_diff: None,
            diff_scroll: 0,
            branches: Seq::empty(),
            branches_selected: 0,
            current_branch: Seq::empty(),
            status_message: None,
            dialog: Dialog::Closed,
            commit_message: Seq::empty(),
            new_branch_name: Seq::empty(),
            base_branch_selected: 0,
            selecting_base: false,
            delete_confirmation: Seq::empty(),
            branch_to_delete: None,
        }
    }

    /// The state is consistent: every selection is valid for its list, no diff
    /// is held without a file, and a dialog that is not open holds no text.
    pub open spec fn wf(self) -> bool {
        &&& selection_valid(self.history_selected, self.commits.len())
        &&& selection_valid(self.files_selected, self.files.len())
        &&& selection_valid(self.branches_selected, self.branches.len())
        &&& self.files.len() == 0 ==> self.current_diff is None
        &&& self.dialog != Dialog::Commit ==> self.commit_message.len() == 0
        &&& self.dialog != Dialog::BranchCreate ==> self.new_branch_name.len() == 0
            && !self.selecting_base
        &&& self.dialog != Dialog::DeleteConfirm ==> self.delete_confirmation.len() == 0
            && self.branch_to_delete is None
        &&& self.dialog == Dialog::DeleteConfirm ==> self.branch_to_delete is Some
    }

    /// The file under the selection, if the selection points at one.
    pub open spec fn selected_file(self) -> Option<FileStatusModel> {
        if self.files_selected < self.files.len() {
            Some(self.files[self.files_selected as int])
        } else {
            None
        }
    }

    /// The branch under the selection, if the selection points at one.
    pub open spec fn selected_branch(self) -> Option<BranchInfoModel> {
        if self.branches_selected < self.branches.len() {
            Some(self.branches[self.branches_selected as int])
        } else {
            None
        }
    }

    /// The branch that a new branch starts from: the one chosen in the dialog,
    /// or the checked-out branch when the choice points at no list entry.
    pub open spec fn base_branch(self) -> Seq<char> {
        if self.base_branch_selected < self.branches.len() {
            self.branches[self.base_branch_selected as int].name
        } else {
            self.current_branch
        }
    }

    /// The state with `view` as the active screen.
    pub open spec fn switch_view(self, view: view::View) -> AppModel {
        AppModel { current_view: view, ..self }
    }

    /// The selection of the active screen moved one item down, stopping at the last.
    pub open spec fn next_item(self) -> AppModel {
        match self.current_view {
            view::View::History => AppModel {
                history_selected: step_down(self.history_selected, self.commits.len()),
                ..self
            },
            view::View::Files => AppModel {
                files_selected: step_down(self.files_selected, self.files.len()),
                ..self
            },
            view::View::Branches => AppModel {
                branches_selected: step_down(self.branches_selected, self.branches.len()),
                ..self
            },
        }
    }

    /// The selection of the active screen moved one item up, stopping at the first.
    pub open spec fn previous_item(self) -> AppModel {
        match self.current_view {
            view::View::History => AppModel {
                history_selected: step_up(self.history_selected, self.commits.len()),
                ..self
            },
            view::View::Files => AppModel {
                files_selected: step_up(self.files_selected, self.files.len()),
                ..self
            },
            view::View::Branches => AppModel {
                branches_selected: step_up(self.branches_selected, self.branches.len()),
                ..self
            },
        }
    }

    /// The state with `message` on the status line.
    pub open spec fn set_status(self, message: Seq<char>) -> AppModel {
        AppModel { status_message: Some(message), ..self }
    }

    /// The diff scrolled up by `lines`, stopping at the top.
    pub open spec fn scroll_diff_up(self, lines: nat) -> AppModel {
        AppModel {
            diff_scroll: if self.diff_scroll >= lines {
                (self.diff_scroll - lines) as nat
            } else {
                0
            },
            ..self
        }
    }

    /// The diff scrolled down by `lines`, stopping only at the largest offset
    /// that the machine can hold.
    pub open spec fn scroll_diff_down(self, lines: nat) -> AppModel {
        AppModel {
            diff_scroll: if self.diff_scroll + lines <= usize::MAX {
                self.diff_scroll + lines
            } else {
                usize::MAX as nat
            },
            ..self
        }
    }

    /// The diff scrolled back to its top.
    pub open spec fn reset_diff_scroll(self) -> AppModel {
        AppModel { diff_scroll: 0, ..self }
    }

    /// No dialog is open and every dialog buffer is empty.
    pub open spec fn close_dialog(self) -> AppModel {
        AppModel {
            dialog: Dialog::Closed,
            commit_message: Seq::empty(),
            new_branch_name: Seq::empty(),
            selecting_base: false,
            delete_confirmation: Seq::empty(),
            branch_to_delete: None,
            ..self
        }
    }

    /// What remains to be done once a refresh has gone through.
    pub open spec fn proceed(self, then: Then) -> (AppModel, StepModel) {
        match then {
            Then::Stop => (self, StepModel::Idle),
            Then::RefreshFiles => (self, StepModel::LoadStatus(Then::Stop)),
            Then::ReportRefreshed => (self.set_status("Refreshed"@), StepModel::Idle),
        }
    }

    /// A refresh that could not read from the repository: the error becomes the
    /// status line and nothing else changes.
    pub open spec fn refresh_failed(self, error: Seq<char>) -> (AppModel, StepModel) {
        (self.set_status("Refresh failed: "@ + error), StepModel::Idle)
    }

    /// The request for the diff of the selected file, or the rest of the work
    /// when no file is selected.
    pub open spec fn request_file_diff(self, then: Then) -> (AppModel, StepModel) {
        match self.selected_file() {
            Some(file) => (self, StepModel::LoadDiff(file.path, then)),
            None => self.proceed(then),
        }
    }

    /// The diff that came back is shown; a failure is shown in its place.
    pub open spec fn update_file_diff(self, reply: Result<Seq<char>, Seq<char>>, then: Then) -> (
        AppModel,
        StepModel,
    ) {
        let shown = match reply {
            Ok(diff) => diff,
            Err(error) => "Error getting diff: "@ + error,
        };
        let next = if self.selected_file() is Some {
            AppModel { current_diff: Some(shown), ..self }
        } else {
            self
        };
        next.proceed(then)
    }

    /// The file list is replaced, the selection brought back into it, and the
    /// diff of the selected file requested; an empty list drops the diff.
    pub open spec fn refresh_files(
        self,
        reply: Result<Seq<FileStatusModel>, Seq<char>>,
        then: Then,
    ) -> (AppModel, StepModel) {
        match reply {
            Ok(files) => {
                let next = AppModel {
                    files,
                    files_selected: clamp_selection(self.files_selected, files.len()),
                    current_diff: if files.len() == 0 {
                        None
                    } else {
                        self.current_diff
                    },
                    ..self
                };
                next.request_file_diff(then)
            },
            Err(error) => self.refresh_failed(error),
        }
    }

    /// The commit list is replaced and the selection brought back into it.
    pub open spec fn refresh_history(
        self,
        reply: Result<Seq<CommitInfoModel>, Seq<char>>,
        then: Then,
    ) -> (AppModel, StepModel) {
        match reply {
            Ok(commits) => AppModel {
                commits,
                history_selected: clamp_selection(self.history_selected, commits.len()),
                ..self
            }.proceed(then),
            Err(error) => self.refresh_failed(error),
        }
    }

    /// The branch list is replaced and the selection brought back into it; the
    /// name of the checked-out branch is asked for next.
    pub open spec fn refresh_branches(
        self,
        reply: Result<Seq<BranchInfoModel>, Seq<char>>,
        then: Then,
    ) -> (AppModel, StepModel) {
        match reply {
            Ok(branches) => (
                AppModel {
                    branches,
                    branches_selected: clamp_selection(self.branches_selected, branches.len()),
                    ..self
                },
                StepModel::LoadCurrentBranch(then),
            ),
            Err(error) => self.refresh_failed(error),
        }
    }

    /// The name of the checked-out branch is replaced.
    pub open spec fn refresh_current_branch(
        self,
        reply: Result<Seq<char>, Seq<char>>,
        then: Then,
    ) -> (AppModel, StepModel) {
        match reply {
            Ok(name) => AppModel { current_branch: name, ..self }.proceed(then),
            Err(error) => self.refresh_failed(error),
        }
    }

    /// The first request of a refresh of the active screen.
    pub open spec fn refresh_current_view(self, then: Then) -> StepModel {
        match self.current_view {
            view::View::Files => StepModel::LoadStatus(then),
            view::View::History => StepModel::LoadCommits(HISTORY_LIMIT as nat, then),
            view::View::Branches => StepModel::LoadBranches(then),
        }
    }

    /// The state and the next step after an action has returned.
    pub open spec fn finish_action(self, action: ActionModel, outcome: Result<(), Seq<char>>) -> (
        AppModel,
        StepModel,
    ) {
        match (action, outcome) {
            (ActionModel::StageFile(path), Ok(_)) => (
                self.set_status("Staged: "@ + path),
                StepModel::LoadStatus(Then::Stop),
            ),
            (ActionModel::StageFile(_), Err(error)) => (
                self.set_status("Failed to stage: "@ + error),
                StepModel::Idle,
            ),
            (ActionModel::StageAll, Ok(_)) => (
                self.set_status("Staged all files"@),
                StepModel::LoadStatus(Then::Stop),
            ),
            (ActionModel::StageAll, Err(error)) => (
                self.set_status("Failed to stage all: "@ + error),
                StepModel::Idle,
            ),
            (ActionModel::Commit(_), Ok(_)) => (
                AppModel {
                    dialog: if self.dialog == Dialog::Commit {
                        Dialog::Closed
                    } else {
                        self.dialog
                    },
                    commit_message: Seq::empty(),
                    ..self.set_status("Committed successfully"@)
                },
                StepModel::LoadStatus(Then::Stop),
            ),
            (ActionModel::Commit(_), Err(error)) => (
                self.set_status("Commit failed: "@ + error),
                StepModel::Idle,
            ),
            (ActionModel::CreateBranch { name, base }, Ok(_)) => (
                self.set_status("Pushing branch to remote..."@),
                StepModel::Run(ActionModel::PushBranch(name)),
            ),
            (ActionModel::CreateBranch { name, base }, Err(error)) => (
                self.set_status("Failed to create branch: "@ + error),
                StepModel::Idle,
            ),
            (ActionModel::PushBranch(name), pushed) => (
                AppModel {
                    dialog: if self.dialog == Dialog::BranchCreate {
                        Dialog::Closed
                    } else {
                        self.dialog
                    },
                    new_branch_name: Seq::empty(),
                    selecting_base: false,
                    ..self.set_status(
                        match pushed {
                            Ok(_) => "Created and pushed branch: "@ + name,
                            Err(error) => "Created branch locally but failed to push: "@ + error,
                        },
                    )
                },
                StepModel::LoadBranches(Then::Stop),
            ),
            (ActionModel::CheckoutBranch(name), Ok(_)) => (
                self.set_status("Checked out: "@ + name),
                StepModel::LoadBranches(Then::RefreshFiles),
            ),
            (ActionModel::CheckoutBranch(_), Err(error)) => (
                self.set_status("Checkout failed: "@ + error),
                StepModel::Idle,
            ),
            (ActionModel::DeleteBranch(name), Ok(_)) => (
                AppModel {
                    dialog: if self.dialog == Dialog::DeleteConfirm {
                        Dialog::Closed
                    } else {
                        self.dialog
                    },
                    delete_confirmation: Seq::empty(),
                    branch_to_delete: None,
                    ..self.set_status("Deleted branch: "@ + name)
                },
                StepModel::LoadBranches(Then::Stop),
            ),
            (ActionModel::DeleteBranch(_), Err(error)) => (
                self.set_status("Failed to delete branch: "@ + error),
                StepModel::Idle,
            ),
            (ActionModel::Push, Ok(_)) => (
                self.set_status("Pushed successfully"@),
                StepModel::Idle,
            ),
            (ActionModel::Push, Err(error)) => (
                self.set_status("Push failed: "@ + error),
                StepModel::Idle,
            ),
            (ActionModel::Pull, Ok(_)) => {
                let next = self.set_status("Pulled successfully"@);
                (next, next.refresh_current_view(Then::Stop))
            },
            (ActionModel::Pull, Err(error)) => (
                self.set_status("Pull failed: "@ + error),
                StepModel::Idle,
            ),
            (ActionModel::Sync, Ok(_)) => {
                let next = self.set_status("Synced successfully"@);
                (next, next.refresh_current_view(Then::Stop))
            },
            (ActionModel::Sync, Err(error)) => (
                self.set_status("Sync failed: "@ + error),
                StepModel::Idle,
            ),
        }
    }

    /// The scroll wheel moves the diff while the files screen is shown.
    pub open spec fn handle_mouse(self, mouse: Mouse) -> AppModel {
        if self.current_view == view::View::Files {
            match mouse {
                Mouse::ScrollDown => self.scroll_diff_down(1),
                Mouse::ScrollUp => self.scroll_diff_up(1),
                Mouse::Other => self,
            }
        } else {
            self
        }
    }

    /// Whether `key` is one of the keys that act on every screen.
    pub open spec fn is_global_key(key: Key) -> bool {
        key == Key::Char('q') || key == Key::Char('1') || key == Key::Char('2') || key
            == Key::Char('3') || key == Key::Char('r')
    }

    /// Quit, the three screen switches and the forced refresh.
    pub open spec fn global_key(self, key: Key) -> (AppModel, StepModel) {
        if key == Key::Char('q') {
            (AppModel { should_quit: true, ..self }, StepModel::Idle)
        } else if key == Key::Char('1') {
            (self.switch_view(view::View::Files), StepModel::LoadStatus(Then::Stop))
        } else if key == Key::Char('2') {
            (
                self.switch_view(view::View::History),
                StepModel::LoadCommits(HISTORY_LIMIT as nat, Then::Stop),
            )
        } else if key == Key::Char('3') {
            (self.switch_view(view::View::Branches), StepModel::LoadBranches(Then::Stop))
        } else if key == Key::Char('r') {
            (self, self.refresh_current_view(Then::ReportRefreshed))
        } else {
            (self, StepModel::Idle)
        }
    }

    /// A key while the commit dialog is open.
    pub open spec fn commit_dialog_key(self, key: Key) -> (AppModel, StepModel) {
        match key {
            Key::Esc => (
                AppModel { dialog: Dialog::Closed, commit_message: Seq::empty(), ..self },
                StepModel::Idle,
            ),
            Key::Enter => if is_blank(self.commit_message) {
                (self, StepModel::Idle)
            } else {
                (self, StepModel::Run(ActionModel::Commit(self.commit_message)))
            },
            Key::Char(c) => (
                AppModel { commit_message: self.commit_message.push(c), ..self },
                StepModel::Idle,
            ),
            Key::Backspace => (
                AppModel { commit_message: without_last(self.commit_message), ..self },
                StepModel::Idle,
            ),
            _ => (self, StepModel::Idle),
        }
    }

    /// The choice of the base branch moved one entry up, stopping at the first.
    pub open spec fn base_selection_up(self) -> AppModel {
        AppModel {
            base_branch_selected: if self.base_branch_selected > 0 {
                (self.base_branch_selected - 1) as nat
            } else {
                self.base_branch_selected
            },
            ..self
        }
    }

    /// The choice of the base branch moved one entry down, stopping at the
    /// last entry of the branch list.
    pub open spec fn base_selection_down(self) -> AppModel {
        AppModel {
            base_branch_selected: step_down(self.base_branch_selected, self.branches.len()),
            ..self
        }
    }

    /// A key while the branch dialog is open, in either of its two modes.
    pub open spec fn branch_dialog_key(self, key: Key) -> (AppModel, StepModel) {
        if self.selecting_base {
            match key {
                Key::Esc => (
                    AppModel {
                        dialog: Dialog::Closed,
                        new_branch_name: Seq::empty(),
                        selecting_base: false,
                        ..self
                    },
                    StepModel::Idle,
                ),
                Key::Up | Key::Char('k') => (self.base_selection_up(), StepModel::Idle),
                Key::Down | Key::Char('j') => (self.base_selection_down(), StepModel::Idle),
                Key::Enter => (AppModel { selecting_base: false, ..self }, StepModel::Idle),
                _ => (self, StepModel::Idle),
            }
        } else {
            match key {
                Key::Esc => (
                    AppModel { dialog: Dialog::Closed, new_branch_name: Seq::empty(), ..self },
                    StepModel::Idle,
                ),
                Key::Enter => if is_blank(self.new_branch_name) {
                    (self, StepModel::Idle)
                } else {
                    (
                        self,
                        StepModel::Run(
                            ActionModel::CreateBranch {
                                name: self.new_branch_name,
                                base: self.base_branch(),
                            },
                        ),
                    )
                },
                Key::Char(c) => (
                    AppModel { new_branch_name: self.new_branch_name.push(c), ..self },
                    StepModel::Idle,
                ),
                Key::Backspace => (
                    AppModel { new_branch_name: without_last(self.new_branch_name), ..self },
                    StepModel::Idle,
                ),
                Key::Tab => (AppModel { selecting_base: true, ..self }, StepModel::Idle),
                _ => (self, StepModel::Idle),
            }
        }
    }

    /// A key while the delete confirmation is open.
    pub open spec fn delete_dialog_key(self, key: Key) -> (AppModel, StepModel) {
        match key {
            Key::Esc => (
                AppModel {
                    dialog: Dialog::Closed,
                    delete_confirmation: Seq::empty(),
                    branch_to_delete: None,
                    ..self
                },
                StepModel::Idle,
            ),
            Key::Enter => if confirms(self.delete_confirmation) {
                match self.branch_to_delete {
                    Some(name) => (self, StepModel::Run(ActionModel::DeleteBranch(name))),
                    None => (self, StepModel::Idle),
                }
            } else {
                (
                    AppModel {
                        dialog: Dialog::Closed,
                        delete_confirmation: Seq::empty(),
                        branch_to_delete: None,
                        ..self.set_status("Delete cancelled"@)
                    },
                    StepModel::Idle,
                )
            },
            Key::Char(c) => (
                AppModel { delete_confirmation: self.delete_confirmation.push(c), ..self },
                StepModel::Idle,
            ),
            Key::Backspace => (
                AppModel { delete_confirmation: without_last(self.delete_confirmation), ..self },
                StepModel::Idle,
            ),
            _ => (self, StepModel::Idle),
        }
    }

    /// Whether `key` moves a selection or the diff.
    pub open spec fn is_navigation_key(key: Key) -> bool {
        key == Key::Up || key == Key::Down || key == Key::Char('k') || key == Key::Char('j')
            || key == Key::PageUp || key == Key::PageDown
    }

    /// The state after the selection has moved: on the files screen with a
    /// non-empty list the diff starts at its top again and is fetched anew.
    pub open spec fn after_move(self) -> (AppModel, StepModel) {
        if self.current_view == view::View::Files && self.files.len() > 0 {
            self.reset_diff_scroll().request_file_diff(Then::Stop)
        } else {
            (self, StepModel::Idle)
        }
    }

    /// Up and down move the selection of the active screen; page-up and
    /// page-down move the diff on the files screen.
    pub open spec fn navigation_key(self, key: Key) -> (AppModel, StepModel) {
        if key == Key::Up || key == Key::Char('k') {
            self.previous_item().after_move()
        } else if key == Key::Down || key == Key::Char('j') {
            self.next_item().after_move()
        } else if key == Key::PageUp && self.current_view == view::View::Files {
            (self.scroll_diff_up(PAGE_STEP as nat), StepModel::Idle)
        } else if key == Key::PageDown && self.current_view == view::View::Files {
            (self.scroll_diff_down(PAGE_STEP as nat), StepModel::Idle)
        } else {
            (self, StepModel::Idle)
        }
    }

    /// The action keys of the files screen.
    pub open spec fn files_key(self, key: Key) -> (AppModel, StepModel) {
        if key == Key::Char('s') {
            match self.selected_file() {
                Some(file) => (self, StepModel::Run(ActionModel::StageFile(file.path))),
                None => (self, StepModel::Idle),
            }
        } else if key == Key::Char('a') {
            (self, StepModel::Run(ActionModel::StageAll))
        } else if key == Key::Char('c') {
            (
                AppModel { dialog: Dialog::Commit, commit_message: Seq::empty(), ..self },
                StepModel::Idle,
            )
        } else if key == Key::Char('P') {
            (self.set_status("Pushing..."@), StepModel::Run(ActionModel::Push))
        } else if key == Key::Char('p') {
            (self.set_status("Pulling..."@), StepModel::Run(ActionModel::Pull))
        } else if key == Key::Char('S') {
            (self.set_status("Syncing..."@), StepModel::Run(ActionModel::Sync))
        } else if key == Key::Enter {
            self.request_file_diff(Then::Stop)
        } else {
            (self, StepModel::Idle)
        }
    }

    /// The action keys of the branches screen.
    pub open spec fn branches_key(self, key: Key) -> (AppModel, StepModel) {
        if key == Key::Char('n') {
            (
                AppModel {
                    dialog: Dialog::BranchCreate,
                    new_branch_name: Seq::empty(),
                    selecting_base: false,
                    base_branch_selected: match first_current(self.branches) {
                        Some(i) => i,
                        None => self.base_branch_selected,
                    },
                    ..self
                },
                StepModel::Idle,
            )
        } else if key == Key::Char('d') {
            match self.selected_branch() {
                Some(branch) => if branch.is_current {
                    (self.set_status("Cannot delete the current branch"@), StepModel::Idle)
                } else {
                    (
                        AppModel {
                            dialog: Dialog::DeleteConfirm,
                            branch_to_delete: Some(branch.name),
                            delete_confirmation: Seq::empty(),
                            ..self
                        },
                        StepModel::Idle,
                    )
                },
                None => (self, StepModel::Idle),
            }
        } else if key == Key::Enter || key == Key::Char('o') {
            match self.selected_branch() {
                Some(branch) => if branch.is_current {
                    (self, StepModel::Idle)
                } else {
                    (self, StepModel::Run(ActionModel::CheckoutBranch(branch.name)))
                },
                None => (self, StepModel::Idle),
            }
        } else {
            (self, StepModel::Idle)
        }
    }

    /// The action keys of the active screen; the history has none.
    pub open spec fn view_key(self, key: Key) -> (AppModel, StepModel) {
        match self.current_view {
            view::View::Files => self.files_key(key),
            view::View::Branches => self.branches_key(key),
            view::View::History => (self, StepModel::Idle),
        }
    }

    /// One key: an open dialog takes every key; otherwise the global keys come
    /// first, then navigation, then the action keys of the active screen.
    pub open spec fn handle_key(self, key: Key) -> (AppModel, StepModel) {
        match self.dialog {
            Dialog::Commit => self.commit_dialog_key(key),
            Dialog::BranchCreate => self.branch_dialog_key(key),
            Dialog::DeleteConfirm => self.delete_dialog_key(key),
            Dialog::Closed => if Self::is_global_key(key) {
                self.global_key(key)
            } else if Self::is_navigation_key(key) {
                self.navigation_key(key)
            } else {
                self.view_key(key)
            },
        }
    }
}

} // verus!
