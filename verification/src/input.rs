//! The input router: one key or mouse event against the current state.
//!
//! An open dialog takes every key. With no dialog open, the keys that act on
//! every screen come first, then navigation, then the action keys of the
//! active screen. Whatever needs the repository is returned as a `Step`.

use crate::app::{App, BranchInfo, Dialog};
use crate::model::{confirms, first_current, outcome_model, AppModel, HISTORY_LIMIT, PAGE_STEP};
use crate::refresh::{refresh_current_view, request_file_diff};
use crate::step::{Action, Step, Then};
use crate::text::{blank, join, trimmed};
use crate::view;
use vstd::prelude::*;

verus! {

/// A key press, reduced to what the controller tells apart.
#[derive(Debug, Clone, Copy, PartialEq, Eq, Structural)]
pub enum Key {
    Char(char),
    Enter,
    Esc,
    Backspace,
    Tab,
    Up,
    Down,
    PageUp,
    PageDown,
    Other,
}

/// A mouse event, reduced to what the controller tells apart.
#[derive(Debug, Clone, Copy, PartialEq, Eq, Structural)]
pub enum Mouse {
    ScrollUp,
    ScrollDown,
    Other,
}

/// Whether `answer`, already trimmed and in lower case, says yes.
pub fn is_affirmative(answer: &str) -> (r: bool)
    ensures
        r == (answer@ == "y"@ || answer@ == "yes"@),
{
    proof {
        reveal_strlit("y");
        reveal_strlit("yes");
    }
    let n = answer.unicode_len();
    if n == 1 {
        let yes = answer.get_char(0) == 'y';
        proof {
            if yes {
                assert(answer@ =~= "y"@);
            }
        }
        yes
    } else if n == 3 {
        let yes = answer.get_char(0) == 'y' && answer.get_char(1) == 'e' && answer.get_char(2)
            == 's';
        proof {
            if yes {
                assert(answer@ =~= "yes"@);
            }
        }
        yes
    } else {
        false
    }
}

/// Whether the text typed into the delete confirmation confirms the deletion:
/// trimmed and in lower case it reads `y` or `yes`.
pub fn confirms_delete(text: &str) -> (r: bool)
    ensures
        r == confirms(text@),
{
    let answer = trimmed(text).to_lowercase();
    is_affirmative(answer.as_str())
}

/// The index of the first branch that is marked current.
pub fn current_branch_index(branches: &Vec<BranchInfo>) -> (found: Option<usize>)
    ensures
        match found {
            Some(i) => first_current(branches.deep_view()) == Some(i as nat),
            None => first_current(branches.deep_view()) is None,
        },
{
    let mut i: usize = 0;
    assert(branches.deep_view().skip(0) =~= branches.deep_view());
    while i < branches.len()
        invariant
            i <= branches.len(),
            match first_current(branches.deep_view().skip(i as int)) {
                Some(k) => first_current(branches.deep_view()) == Some(k + i as nat),
                None => first_current(branches.deep_view()) is None,
            },
        decreases branches.len() - i,
    {
        if branches[i].is_current {
            proof {
                assert(branches.deep_view().skip(i as int).first().is_current);
            }
            return Some(i);
        }
        proof {
            let rest = branches.deep_view().skip(i as int);
            assert(!rest.first().is_current);
            assert(rest.drop_first() =~= branches.deep_view().skip(i + 1));
        }
        i += 1;
    }
    None
}

/// Handles a mouse event: the wheel scrolls the diff on the files screen.
pub fn handle_mouse_event(app: &mut App, mouse: Mouse)
    ensures
        final(app)@ == old(app)@.handle_mouse(mouse),
        old(app)@.wf() ==> final(app)@.wf(),
{
    match mouse {
        Mouse::ScrollDown => {
            if app.current_view == view::View::Files {
                app.scroll_diff_down();
            }
        },
        Mouse::ScrollUp => {
            if app.current_view == view::View::Files {
                app.scroll_diff_up();
            }
        },
        Mouse::Other => {},
    }
}

/// Whether `key` is quit, a screen switch or the forced refresh.
pub fn is_global_key(key: Key) -> (r: bool)
    ensures
        r == AppModel::is_global_key(key),
{
    match key {
        Key::Char(c) => c == 'q' || c == '1' || c == '2' || c == '3' || c == 'r',
        _ => false,
    }
}

/// Whether `key` moves a selection or the diff.
pub fn is_navigation_key(key: Key) -> (r: bool)
    ensures
        r == AppModel::is_navigation_key(key),
{
    match key {
        Key::Up | Key::Down | Key::PageUp | Key::PageDown => true,
        Key::Char(c) => c == 'k' || c == 'j',
        _ => false,
    }
}

/// Handles a key that acts on every screen: quit, the three screen switches,
/// each with a refresh of the screen it leads to, and the forced refresh.
pub fn handle_global_keys(app: &mut App, key: Key) -> (step: Step)
    ensures
        final(app)@ == old(app)@.global_key(key).0,
        step@ == old(app)@.global_key(key).1,
        old(app)@.wf() ==> final(app)@.wf(),
{
    match key {
        Key::Char(c) => {
            if c == 'q' {
                app.should_quit = true;
                Step::Idle
            } else if c == '1' {
                app.switch_view(view::View::Files);
                Step::LoadStatus(Then::Stop)
            } else if c == '2' {
                app.switch_view(view::View::History);
                Step::LoadCommits(HISTORY_LIMIT, Then::Stop)
            } else if c == '3' {
                app.switch_view(view::View::Branches);
                Step::LoadBranches(Then::Stop)
            } else if c == 'r' {
                refresh_current_view(app, Then::ReportRefreshed)
            } else {
                Step::Idle
            }
        },
        _ => Step::Idle,
    }
}

/// Handles a key while the commit dialog is open.
pub fn handle_commit_dialog_keys(app: &mut App, key: Key) -> (step: Step)
    ensures
        final(app)@ == old(app)@.commit_dialog_key(key).0,
        step@ == old(app)@.commit_dialog_key(key).1,
        old(app)@.wf() && old(app).dialog == Dialog::Commit ==> final(app)@.wf(),
{
    match key {
        Key::Esc => {
            app.dialog = Dialog::Closed;
            app.commit_message = String::new();
            Step::Idle
        },
        Key::Enter => {
            if blank(app.commit_message.as_str()) {
                Step::Idle
            } else {
                Step::Run(Action::Commit(app.commit_message.clone()))
            }
        },
        Key::Char(c) => {
            app.commit_message.push(c);
            Step::Idle
        },
        Key::Backspace => {
            app.commit_message.pop();
            Step::Idle
        },
        _ => Step::Idle,
    }
}

/// The name of the branch that a new branch starts from: the entry chosen in
/// the dialog, or the checked-out branch when the choice points at no entry.
pub fn base_branch_name(app: &App) -> (name: String)
    ensures
        name@ == app@.base_branch(),
{
    let chosen = app.branch_creation.base_branch_selected;
    if chosen < app.branches_state.branches.len() {
        app.branches_state.branches[chosen].name.clone()
    } else {
        app.branches_state.current_branch.clone()
    }
}

/// Moves the choice of the base branch one entry up.
fn base_selection_up(app: &mut App)
    ensures
        final(app)@ == old(app)@.base_selection_up(),
{
    if app.branch_creation.base_branch_selected > 0 {
        app.branch_creation.base_branch_selected -= 1;
    }
}

/// Moves the choice of the base branch one entry down.
fn base_selection_down(app: &mut App)
    ensures
        final(app)@ == old(app)@.base_selection_down(),
{
    let len = app.branches_state.branches.len();
    if len > 0 {
        let chosen = app.branch_creation.base_branch_selected;
        app.branch_creation.base_branch_selected = if chosen < len - 1 {
            chosen + 1
        } else {
            len - 1
        };
    }
}

/// Handles a key while the branch dialog is open, in either of its two modes.
pub fn handle_branch_dialog_keys(app: &mut App, key: Key) -> (step: Step)
    ensures
        final(app)@ == old(app)@.branch_dialog_key(key).0,
        step@ == old(app)@.branch_dialog_key(key).1,
        old(app)@.wf() && old(app).dialog == Dialog::BranchCreate ==> final(app)@.wf(),
{
    if app.branch_creation.selecting_base {
        match key {
            Key::Esc => {
                app.dialog = Dialog::Closed;
                app.branch_creation.new_branch_name = String::new();
                app.branch_creation.selecting_base = false;
            },
            Key::Up => {
                base_selection_up(app);
            },
            Key::Down => {
                base_selection_down(app);
            },
            Key::Char(c) => {
                if c == 'k' {
                    base_selection_up(app);
                } else if c == 'j' {
                    base_selection_down(app);
                }
            },
            Key::Enter => {
                app.branch_creation.selecting_base = false;
            },
            _ => {},
        }
        Step::Idle
    } else {
        match key {
            Key::Esc => {
                app.dialog = Dialog::Closed;
                app.branch_creation.new_branch_name = String::new();
                Step::Idle
            },
            Key::Enter => {
                if blank(app.branch_creation.new_branch_name.as_str()) {
                    Step::Idle
                } else {
                    let base = base_branch_name(app);
                    let name = app.branch_creation.new_branch_name.clone();
                    Step::Run(Action::CreateBranch { name, base })
                }
            },
            Key::Char(c) => {
                app.branch_creation.new_branch_name.push(c);
                Step::Idle
            },
            Key::Backspace => {
                app.branch_creation.new_branch_name.pop();
                Step::Idle
            },
            Key::Tab => {
                app.branch_creation.selecting_base = true;
                Step::Idle
            },
            _ => Step::Idle,
        }
    }
}

/// Handles a key while the delete confirmation is open.
pub fn handle_delete_dialog_keys(app: &mut App, key: Key) -> (step: Step)
    ensures
        final(app)@ == old(app)@.delete_dialog_key(key).0,
        step@ == old(app)@.delete_dialog_key(key).1,
        old(app)@.wf() && old(app).dialog == Dialog::DeleteConfirm ==> final(app)@.wf(),
{
    match key {
        Key::Esc => {
            app.dialog = Dialog::Closed;
            app.delete_confirmation = String::new();
            app.branch_to_delete = None;
            Step::Idle
        },
        Key::Enter => {
            if confirms_delete(app.delete_confirmation.as_str()) {
                match &app.branch_to_delete {
                    Some(name) => Step::Run(Action::DeleteBranch(name.clone())),
                    None => Step::Idle,
                }
            } else {
                app.set_status("Delete cancelled".to_owned());
                app.dialog = Dialog::Closed;
                app.delete_confirmation = String::new();
                app.branch_to_delete = None;
                Step::Idle
            }
        },
        Key::Char(c) => {
            app.delete_confirmation.push(c);
            Step::Idle
        },
        Key::Backspace => {
            app.delete_confirmation.pop();
            Step::Idle
        },
        _ => Step::Idle,
    }
}

/// After the selection has moved on the files screen, the diff starts at its
/// top again and is fetched for the file now selected.
fn after_move(app: &mut App) -> (step: Step)
    ensures
        final(app)@ == old(app)@.after_move().0,
        step@ == old(app)@.after_move().1,
        old(app)@.wf() ==> final(app)@.wf(),
{
    if app.current_view == view::View::Files && app.files_state.files.len() > 0 {
        app.reset_diff_scroll();
        request_file_diff(app, Then::Stop)
    } else {
        Step::Idle
    }
}

/// Scrolls the diff up by one page.
fn page_up(app: &mut App)
    ensures
        final(app)@ == old(app)@.scroll_diff_up(PAGE_STEP as nat),
{
    let mut i: usize = 0;
    while i < PAGE_STEP
        invariant
            i <= PAGE_STEP,
            app@ == old(app)@.scroll_diff_up(i as nat),
        decreases PAGE_STEP - i,
    {
        app.scroll_diff_up();
        i += 1;
    }
}

/// Scrolls the diff down by one page.
fn page_down(app: &mut App)
    ensures
        final(app)@ == old(app)@.scroll_diff_down(PAGE_STEP as nat),
{
    let mut i: usize = 0;
    while i < PAGE_STEP
        invariant
            i <= PAGE_STEP,
            app@ == old(app)@.scroll_diff_down(i as nat),
        decreases PAGE_STEP - i,
    {
        app.scroll_diff_down();
        i += 1;
    }
}

/// Handles a navigation key: up and down move the selection of the active
/// screen, page-up and page-down move the diff on the files screen.
pub fn handle_navigation_keys(app: &mut App, key: Key) -> (step: Step)
    ensures
        final(app)@ == old(app)@.navigation_key(key).0,
        step@ == old(app)@.navigation_key(key).1,
        old(app)@.wf() ==> final(app)@.wf(),
{
    match key {
        Key::Up => {
            app.previous_item();
            after_move(app)
        },
        Key::Down => {
            app.next_item();
            after_move(app)
        },
        Key::Char(c) => {
            if c == 'k' {
                app.previous_item();
                after_move(app)
            } else if c == 'j' {
                app.next_item();
                after_move(app)
            } else {
                Step::Idle
            }
        },
        Key::PageUp => {
            if app.current_view == view::View::Files {
                page_up(app);
            }
            Step::Idle
        },
        Key::PageDown => {
            if app.current_view == view::View::Files {
                page_down(app);
            }
            Step::Idle
        },
        _ => Step::Idle,
    }
}

/// Handles an action key of the files screen.
pub fn handle_files_keys(app: &mut App, key: Key) -> (step: Step)
    ensures
        final(app)@ == old(app)@.files_key(key).0,
        step@ == old(app)@.files_key(key).1,
        old(app)@.wf() && old(app).dialog == Dialog::Closed ==> final(app)@.wf(),
{
    match key {
        Key::Char(c) => {
            if c == 's' {
                if app.files_state.selected < app.files_state.files.len() {
                    let path = app.files_state.files[app.files_state.selected].path.clone();
                    Step::Run(Action::StageFile(path))
                } else {
                    Step::Idle
                }
            } else if c == 'a' {
                Step::Run(Action::StageAll)
            } else if c == 'c' {
                app.dialog = Dialog::Commit;
                app.commit_message = String::new();
                Step::Idle
            } else if c == 'P' {
                app.set_status("Pushing...".to_owned());
                Step::Run(Action::Push)
            } else if c == 'p' {
                app.set_status("Pulling...".to_owned());
                Step::Run(Action::Pull)
            } else if c == 'S' {
                app.set_status("Syncing...".to_owned());
                Step::Run(Action::Sync)
            } else {
                Step::Idle
            }
        },
        Key::Enter => request_file_diff(app, Then::Stop),
        _ => Step::Idle,
    }
}

/// Opens the branch dialog: an empty name, name entry first, and the
/// checked-out branch as the base where the list marks one.
fn open_branch_dialog(app: &mut App)
    ensures
        final(app)@ == old(app)@.branches_key(Key::Char('n')).0,
{
    app.dialog = Dialog::BranchCreate;
    app.branch_creation.new_branch_name = String::new();
    app.branch_creation.selecting_base = false;
    match current_branch_index(&app.branches_state.branches) {
        Some(i) => {
            app.branch_creation.base_branch_selected = i;
        },
        None => {},
    }
}

/// Handles an action key of the branches screen.
pub fn handle_branches_keys(app: &mut App, key: Key) -> (step: Step)
    ensures
        final(app)@ == old(app)@.branches_key(key).0,
        step@ == old(app)@.branches_key(key).1,
        old(app)@.wf() && old(app).dialog == Dialog::Closed ==> final(app)@.wf(),
{
    let selected = app.branches_state.selected;
    match key {
        Key::Char(c) => {
            if c == 'n' {
                open_branch_dialog(app);
                Step::Idle
            } else if c == 'd' {
                if selected < app.branches_state.branches.len() {
                    if app.branches_state.branches[selected].is_current {
                        app.set_status("Cannot delete the current branch".to_owned());
                    } else {
                        let name = app.branches_state.branches[selected].name.clone();
                        app.dialog = Dialog::DeleteConfirm;
                        app.branch_to_delete = Some(name);
                        app.delete_confirmation = String::new();
                    }
                }
                Step::Idle
            } else if c == 'o' {
                checkout_selected(app)
            } else {
                Step::Idle
            }
        },
        Key::Enter => checkout_selected(app),
        _ => Step::Idle,
    }
}

/// Asks for the checkout of the selected branch, unless it is checked out already.
fn checkout_selected(app: &App) -> (step: Step)
    ensures
        step@ == app@.branches_key(Key::Enter).1,
{
    let selected = app.branches_state.selected;
    let branches = &app.branches_state.branches;
    if selected < branches.len() && !branches[selected].is_current {
        Step::Run(Action::CheckoutBranch(branches[selected].name.clone()))
    } else {
        Step::Idle
    }
}

/// Handles one key press and returns what the event loop has to do next.
pub fn handle_key_event(app: &mut App, key: Key) -> (step: Step)
    ensures
        final(app)@ == old(app)@.handle_key(key).0,
        step@ == old(app)@.handle_key(key).1,
        old(app)@.wf() ==> final(app)@.wf(),
{
    match app.dialog {
        Dialog::Commit => handle_commit_dialog_keys(app, key),
        Dialog::BranchCreate => handle_branch_dialog_keys(app, key),
        Dialog::DeleteConfirm => handle_delete_dialog_keys(app, key),
        Dialog::Closed => {
            if is_global_key(key) {
                handle_global_keys(app, key)
            } else if is_navigation_key(key) {
                handle_navigation_keys(app, key)
            } else {
                match app.current_view {
                    view::View::Files => handle_files_keys(app, key),
                    view::View::Branches => handle_branches_keys(app, key),
                    view::View::History => Step::Idle,
                }
            }
        },
    }
}

/// Takes the result of an action and returns what the event loop has to do next.
pub fn finish_action(app: &mut App, action: Action, outcome: Result<(), String>) -> (step: Step)
    ensures
        final(app)@ == old(app)@.finish_action(action@, outcome_model(outcome)).0,
        step@ == old(app)@.finish_action(action@, outcome_model(outcome)).1,
        old(app)@.wf() ==> final(app)@.wf(),
{
    match action {
        Action::StageFile(path) => match outcome {
            Ok(_) => {
                app.set_status(join("Staged: ", path.as_str()));
                Step::LoadStatus(Then::Stop)
            },
            Err(error) => {
                app.set_status(join("Failed to stage: ", error.as_str()));
                Step::Idle
            },
        },
        Action::StageAll => match outcome {
            Ok(_) => {
                app.set_status("Staged all files".to_owned());
                Step::LoadStatus(Then::Stop)
            },
            Err(error) => {
                app.set_status(join("Failed to stage all: ", error.as_str()));
                Step::Idle
            },
        },
        Action::Commit(_) => match outcome {
            Ok(_) => {
                app.set_status("Committed successfully".to_owned());
                app.commit_message = String::new();
                if app.dialog == Dialog::Commit {
                    app.dialog = Dialog::Closed;
                }
                Step::LoadStatus(Then::Stop)
            },
            Err(error) => {
                app.set_status(join("Commit failed: ", error.as_str()));
                Step::Idle
            },
        },
        Action::CreateBranch { name, base } => match outcome {
            Ok(_) => {
                app.set_status("Pushing branch to remote...".to_owned());
                Step::Run(Action::PushBranch(name))
            },
            Err(error) => {
                app.set_status(join("Failed to create branch: ", error.as_str()));
                Step::Idle
            },
        },
        Action::PushBranch(name) => {
            match outcome {
                Ok(_) => {
                    app.set_status(join("Created and pushed branch: ", name.as_str()));
                },
                Err(error) => {
                    app.set_status(
                        join("Created branch locally but failed to push: ", error.as_str()),
                    );
                },
            }
            app.branch_creation.new_branch_name = String::new();
            app.branch_creation.selecting_base = false;
            if app.dialog == Dialog::BranchCreate {
                app.dialog = Dialog::Closed;
            }
            Step::LoadBranches(Then::Stop)
        },
        Action::CheckoutBranch(name) => match outcome {
            Ok(_) => {
                app.set_status(join("Checked out: ", name.as_str()));
                Step::LoadBranches(Then::RefreshFiles)
            },
            Err(error) => {
                app.set_status(join("Checkout failed: ", error.as_str()));
                Step::Idle
            },
        },
        Action::DeleteBranch(name) => match outcome {
            Ok(_) => {
                app.set_status(join("Deleted branch: ", name.as_str()));
                app.delete_confirmation = String::new();
                app.branch_to_delete = None;
                if app.dialog == Dialog::DeleteConfirm {
                    app.dialog = Dialog::Closed;
                }
                Step::LoadBranches(Then::Stop)
            },
            Err(error) => {
                app.set_status(join("Failed to delete branch: ", error.as_str()));
                Step::Idle
            },
        },
        Action::Push => match outcome {
            Ok(_) => {
                app.set_status("Pushed successfully".to_owned());
                Step::Idle
            },
            Err(error) => {
                app.set_status(join("Push failed: ", error.as_str()));
                Step::Idle
            },
        },
        Action::Pull => match outcome {
            Ok(_) => {
                app.set_status("Pulled successfully".to_owned());
                refresh_current_view(app, Then::Stop)
            },
            Err(error) => {
                app.set_status(join("Pull failed: ", error.as_str()));
                Step::Idle
            },
        },
        Action::Sync => match outcome {
            Ok(_) => {
                app.set_status("Synced successfully".to_owned());
                refresh_current_view(app, Then::Stop)
            },
            Err(error) => {
                app.set_status(join("Sync failed: ", error.as_str()));
                Step::Idle
            },
        },
    }
}

} // verus!
