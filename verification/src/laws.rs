//! What holds of the controller whatever the input: laws over the model that
//! the executable functions are specified against.

use crate::app::Dialog;
use crate::git::branch_infos_of;
use crate::input::Key;
use crate::model::{
    confirms, selection_valid, ActionModel, AppModel, BranchInfoModel, CommitInfoModel,
    FileStatusModel, StepModel,
};
use crate::step::Then;
use crate::text::is_blank;
use crate::view;
use vstd::prelude::*;

verus! {

/// The state after a run of selection moves: `true` stands for one step down,
/// `false` for one step up.
pub open spec fn after_moves(m: AppModel, moves: Seq<bool>) -> AppModel
    decreases moves.len(),
{
    if moves.len() == 0 {
        m
    } else {
        let before = after_moves(m, moves.drop_last());
        if moves.last() {
            before.next_item()
        } else {
            before.previous_item()
        }
    }
}

/// The number of items in the list of the active screen.
pub open spec fn active_len(m: AppModel) -> nat {
    match m.current_view {
        view::View::History => m.commits.len(),
        view::View::Files => m.files.len(),
        view::View::Branches => m.branches.len(),
    }
}

/// However often the selection is moved up and down, it stays inside its
/// list: below the number of items, and at 0 while the list is empty. The
/// lists themselves are not touched, and on an empty list no move changes
/// anything.
pub proof fn law_moves_keep_selection_in_list(m: AppModel, moves: Seq<bool>)
    requires
        m.wf(),
    ensures
        after_moves(m, moves).wf(),
        selection_valid(after_moves(m, moves).history_selected, m.commits.len()),
        selection_valid(after_moves(m, moves).files_selected, m.files.len()),
        selection_valid(after_moves(m, moves).branches_selected, m.branches.len()),
        after_moves(m, moves).commits == m.commits,
        after_moves(m, moves).files == m.files,
        after_moves(m, moves).branches == m.branches,
        after_moves(m, moves).current_view == m.current_view,
        active_len(m) == 0 ==> after_moves(m, moves) == m,
    decreases moves.len(),
{
    if moves.len() > 0 {
        law_moves_keep_selection_in_list(m, moves.drop_last());
    }
}

/// A refresh whose list has become shorter than the selection moves the
/// selection to the last item; a refresh to an empty list puts the selection
/// at 0, and on the files screen drops the diff.
pub proof fn law_refresh_clamps_selection(
    m: AppModel,
    files: Seq<FileStatusModel>,
    commits: Seq<CommitInfoModel>,
    branches: Seq<BranchInfoModel>,
    then: Then,
)
    ensures
        ({
            let next = m.refresh_files(Ok(files), then).0;
            &&& next.files == files
            &&& selection_valid(next.files_selected, files.len())
            &&& m.files_selected < files.len() ==> next.files_selected == m.files_selected
            &&& 0 < files.len() <= m.files_selected ==> next.files_selected == files.len() - 1
            &&& files.len() == 0 ==> next.files_selected == 0 && next.current_diff is None
            &&& files.len() > 0 ==> m.refresh_files(Ok(files), then).1 == StepModel::LoadDiff(
                files[next.files_selected as int].path,
                then,
            )
        }),
        ({
            let next = m.refresh_history(Ok(commits), then).0;
            &&& next.commits == commits
            &&& selection_valid(next.history_selected, commits.len())
            &&& m.history_selected < commits.len() ==> next.history_selected
                == m.history_selected
            &&& 0 < commits.len() <= m.history_selected ==> next.history_selected == commits.len()
                - 1
            &&& commits.len() == 0 ==> next.history_selected == 0
        }),
        ({
            let next = m.refresh_branches(Ok(branches), then).0;
            &&& next.branches == branches
            &&& selection_valid(next.branches_selected, branches.len())
            &&& m.branches_selected < branches.len() ==> next.branches_selected
                == m.branches_selected
            &&& 0 < branches.len() <= m.branches_selected ==> next.branches_selected
                == branches.len() - 1
            &&& branches.len() == 0 ==> next.branches_selected == 0
        }),
{
}

/// Every transition keeps a consistent state consistent: a key, a mouse
/// event, the result of an action, and each answer to a refresh.
pub proof fn law_transitions_keep_state_consistent(m: AppModel)
    requires
        m.wf(),
    ensures
        forall|key: Key| (#[trigger] m.handle_key(key)).0.wf(),
        forall|mouse: crate::input::Mouse| (#[trigger] m.handle_mouse(mouse)).wf(),
        forall|action: ActionModel, outcome: Result<(), Seq<char>>|
            (#[trigger] m.finish_action(action, outcome)).0.wf(),
        forall|reply: Result<Seq<FileStatusModel>, Seq<char>>, then: Then|
            (#[trigger] m.refresh_files(reply, then)).0.wf(),
        forall|reply: Result<Seq<char>, Seq<char>>, then: Then|
            (#[trigger] m.update_file_diff(reply, then)).0.wf(),
        forall|reply: Result<Seq<CommitInfoModel>, Seq<char>>, then: Then|
            (#[trigger] m.refresh_history(reply, then)).0.wf(),
        forall|reply: Result<Seq<BranchInfoModel>, Seq<char>>, then: Then|
            (#[trigger] m.refresh_branches(reply, then)).0.wf(),
        forall|reply: Result<Seq<char>, Seq<char>>, then: Then|
            (#[trigger] m.refresh_current_branch(reply, then)).0.wf(),
{
}

/// A key that opens a dialog opens it with empty text: the commit dialog
/// with an empty message, the branch dialog with an empty name and in name
/// entry, the delete confirmation with an empty answer. Nothing is asked of
/// the repository, and in a consistent state every buffer is empty.
pub proof fn law_opening_a_dialog_clears_buffers(m: AppModel, key: Key)
    requires
        m.dialog == Dialog::Closed,
        m.handle_key(key).0.dialog != Dialog::Closed,
    ensures
        m.handle_key(key).1 is Idle,
        m.handle_key(key).0.dialog == Dialog::Commit ==> m.handle_key(key).0.commit_message.len()
            == 0,
        m.handle_key(key).0.dialog == Dialog::BranchCreate ==> m.handle_key(
            key,
        ).0.new_branch_name.len() == 0 && !m.handle_key(key).0.selecting_base,
        m.handle_key(key).0.dialog == Dialog::DeleteConfirm ==> m.handle_key(
            key,
        ).0.delete_confirmation.len() == 0,
        m.wf() ==> {
            &&& m.handle_key(key).0.wf()
            &&& m.handle_key(key).0.commit_message.len() == 0
            &&& m.handle_key(key).0.new_branch_name.len() == 0
            &&& m.handle_key(key).0.delete_confirmation.len() == 0
        },
{
}

/// Escape closes whichever dialog is open, in whichever mode, whatever was
/// typed: no dialog is open afterwards, the text of the dialog is gone, and
/// nothing is asked of the repository. In a consistent state every buffer is
/// empty afterwards and nothing else has changed.
pub proof fn law_escape_closes_any_dialog(m: AppModel)
    requires
        m.dialog != Dialog::Closed,
    ensures
        m.handle_key(Key::Esc).1 is Idle,
        m.handle_key(Key::Esc).0.dialog == Dialog::Closed,
        m.dialog == Dialog::Commit ==> m.handle_key(Key::Esc).0.commit_message.len() == 0,
        m.dialog == Dialog::BranchCreate ==> m.handle_key(Key::Esc).0.new_branch_name.len() == 0
            && !m.handle_key(Key::Esc).0.selecting_base,
        m.dialog == Dialog::DeleteConfirm ==> m.handle_key(Key::Esc).0.delete_confirmation.len()
            == 0 && m.handle_key(Key::Esc).0.branch_to_delete is None,
        m.wf() ==> m.handle_key(Key::Esc).0 == m.close_dialog() && m.handle_key(Key::Esc).0.wf(),
{
    if m.wf() {
        assert(m.commit_message.len() == 0 ==> m.commit_message =~= Seq::empty());
        assert(m.new_branch_name.len() == 0 ==> m.new_branch_name =~= Seq::empty());
        assert(m.delete_confirmation.len() == 0 ==> m.delete_confirmation =~= Seq::empty());
    }
}

/// A key asks for a new branch in one case only: the branch dialog is open in
/// name entry, the key is Enter, and the name is not blank. The branch asked
/// for has the name as typed and starts from the chosen base.
pub proof fn law_branch_created_only_on_enter_with_name(m: AppModel, key: Key)
    ensures
        m.handle_key(key).1 matches StepModel::Run(ActionModel::CreateBranch { .. }) <==> (
        m.dialog == Dialog::BranchCreate && !m.selecting_base && key == Key::Enter && !is_blank(
            m.new_branch_name,
        )),
        m.handle_key(key).1 matches StepModel::Run(ActionModel::CreateBranch { name, base })
            ==> name == m.new_branch_name && base == m.base_branch() && m.handle_key(key).0 == m,
{
}

/// One switch between the two modes of the branch dialog: Tab from name
/// entry, Enter from base selection.
pub open spec fn toggle_key(m: AppModel) -> Key {
    if m.selecting_base {
        Key::Enter
    } else {
        Key::Tab
    }
}

/// The state after `n` switches between the two modes of the branch dialog.
pub open spec fn after_toggles(m: AppModel, n: nat) -> AppModel
    decreases n,
{
    if n == 0 {
        m
    } else {
        let before = after_toggles(m, (n - 1) as nat);
        before.handle_key(toggle_key(before)).0
    }
}

/// Switching between name entry and base selection, however often, asks
/// nothing of the repository and changes nothing but the mode: the dialog
/// stays open with the name and the chosen base as they were.
pub proof fn law_toggling_creates_nothing(m: AppModel, n: nat)
    requires
        m.dialog == Dialog::BranchCreate,
    ensures
        after_toggles(m, n) == (AppModel {
            selecting_base: if n % 2 == 0 {
                m.selecting_base
            } else {
                !m.selecting_base
            },
            ..m
        }),
        forall|k: nat|
            k < n ==> (#[trigger] after_toggles(m, k)).handle_key(
                toggle_key(after_toggles(m, k)),
            ).1 is Idle,
    decreases n,
{
    if n > 0 {
        law_toggling_creates_nothing(m, (n - 1) as nat);
        let before = after_toggles(m, (n - 1) as nat);
        assert forall|k: nat| k < n implies (#[trigger] after_toggles(m, k)).handle_key(
            toggle_key(after_toggles(m, k)),
        ).1 is Idle by {
            if k == n - 1 {
                assert(after_toggles(m, k) == before);
            }
        }
    }
}

/// Enter in the delete confirmation deletes exactly when the text, trimmed
/// and in lower case, reads `y` or `yes`. Any other text cancels: the dialog
/// closes with its buffers cleared, the status line says so, and nothing is
/// asked of the repository.
pub proof fn law_delete_needs_yes(m: AppModel)
    requires
        m.dialog == Dialog::DeleteConfirm,
        m.branch_to_delete is Some,
    ensures
        confirms(m.delete_confirmation) ==> m.handle_key(Key::Enter) == (
            m,
            StepModel::Run(ActionModel::DeleteBranch(m.branch_to_delete->0)),
        ),
        !confirms(m.delete_confirmation) ==> {
            &&& m.handle_key(Key::Enter).1 is Idle
            &&& m.handle_key(Key::Enter).0.dialog == Dialog::Closed
            &&& m.handle_key(Key::Enter).0.status_message == Some("Delete cancelled"@)
            &&& m.handle_key(Key::Enter).0.delete_confirmation.len() == 0
            &&& m.handle_key(Key::Enter).0.branch_to_delete is None
            &&& m.handle_key(Key::Enter).0.branches == m.branches
        },
{
}

/// A key asks for the deletion of a branch in one case only: the delete
/// confirmation is open for that branch, the key is Enter, and the text
/// confirms.
pub proof fn law_branch_deleted_only_on_confirmation(m: AppModel, key: Key)
    ensures
        m.handle_key(key).1 matches StepModel::Run(ActionModel::DeleteBranch(name)) <==> (
        m.dialog == Dialog::DeleteConfirm && key == Key::Enter && confirms(m.delete_confirmation)
            && m.branch_to_delete is Some),
        m.handle_key(key).1 matches StepModel::Run(ActionModel::DeleteBranch(name))
            ==> m.branch_to_delete == Some(name),
{
}

/// With the checked-out branch selected on the branches screen, the delete
/// key opens no dialog and only reports the refusal, and the checkout keys
/// change nothing and ask nothing of the repository.
pub proof fn law_current_branch_is_protected(m: AppModel)
    requires
        m.dialog == Dialog::Closed,
        m.current_view == view::View::Branches,
        m.selected_branch() matches Some(branch) && branch.is_current,
    ensures
        m.handle_key(Key::Char('d')) == (
            m.set_status("Cannot delete the current branch"@),
            StepModel::Idle,
        ),
        m.handle_key(Key::Char('d')).0.dialog == Dialog::Closed,
        m.handle_key(Key::Enter) == (m, StepModel::Idle),
        m.handle_key(Key::Char('o')) == (m, StepModel::Idle),
{
}

/// The delete confirmation is only ever opened for a branch that is not
/// checked out, and it is bound to the branch under the selection.
pub proof fn law_delete_dialog_opens_for_other_branches_only(m: AppModel, key: Key)
    requires
        m.dialog == Dialog::Closed,
        m.handle_key(key).0.dialog == Dialog::DeleteConfirm,
    ensures
        m.selected_branch() matches Some(branch) && !branch.is_current && m.handle_key(
            key,
        ).0.branch_to_delete == Some(branch.name),
{
}

/// The number of further calls into the repository that a refresh may still
/// need once it has gone through.
pub open spec fn calls_after(then: Then) -> nat {
    match then {
        Then::Stop => 0,
        Then::RefreshFiles => 2,
        Then::ReportRefreshed => 0,
    }
}

/// An upper bound on the number of calls into the repository that are still
/// to come when the event loop holds `step`, the call that `step` names
/// included.
pub open spec fn calls_left(step: StepModel) -> nat {
    match step {
        StepModel::Idle => 0,
        StepModel::LoadDiff(_, then) => 1 + calls_after(then),
        StepModel::LoadStatus(then) => 2 + calls_after(then),
        StepModel::LoadCommits(_, then) => 1 + calls_after(then),
        StepModel::LoadCurrentBranch(then) => 1 + calls_after(then),
        StepModel::LoadBranches(then) => 2 + calls_after(then),
        StepModel::Run(action) => match action {
            ActionModel::Push => 1,
            ActionModel::PushBranch(_) => 3,
            ActionModel::CreateBranch { .. } => 4,
            ActionModel::CheckoutBranch(_) => 5,
            _ => 3,
        },
    }
}

/// Every answer brings the end of an event closer: the step that follows the
/// result of a call needs fewer calls than the step that named the call. So
/// the event loop makes at most five calls for one key, and always comes back
/// to waiting for input.
pub proof fn law_every_answer_brings_the_end_closer(
    m: AppModel,
    then: Then,
    path: Seq<char>,
    limit: nat,
)
    ensures
        calls_left(m.proceed(then).1) <= calls_after(then),
        forall|action: ActionModel, outcome: Result<(), Seq<char>>|
            calls_left((#[trigger] m.finish_action(action, outcome)).1) < calls_left(
                StepModel::Run(action),
            ),
        forall|reply: Result<Seq<FileStatusModel>, Seq<char>>|
            calls_left((#[trigger] m.refresh_files(reply, then)).1) < calls_left(
                StepModel::LoadStatus(then),
            ),
        forall|reply: Result<Seq<char>, Seq<char>>|
            calls_left((#[trigger] m.update_file_diff(reply, then)).1) < calls_left(
                StepModel::LoadDiff(path, then),
            ),
        forall|reply: Result<Seq<CommitInfoModel>, Seq<char>>|
            calls_left((#[trigger] m.refresh_history(reply, then)).1) < calls_left(
                StepModel::LoadCommits(limit, then),
            ),
        forall|reply: Result<Seq<BranchInfoModel>, Seq<char>>|
            calls_left((#[trigger] m.refresh_branches(reply, then)).1) < calls_left(
                StepModel::LoadBranches(then),
            ),
        forall|reply: Result<Seq<char>, Seq<char>>|
            calls_left((#[trigger] m.refresh_current_branch(reply, then)).1) < calls_left(
                StepModel::LoadCurrentBranch(then),
            ),
        forall|key: Key| calls_left((#[trigger] m.handle_key(key)).1) <= 5,
{
}

/// Every action that has returned is reported: the status line holds a
/// message afterwards, and after a failure the message ends with the error
/// text as the repository gave it.
pub proof fn law_every_action_is_reported(
    m: AppModel,
    action: ActionModel,
    outcome: Result<(), Seq<char>>,
)
    ensures
        m.finish_action(action, outcome).0.status_message is Some,
        outcome matches Err(error) ==> {
            let message = m.finish_action(action, outcome).0.status_message->0;
            message.len() >= error.len() && message.skip(message.len() - error.len()) == error
        },
{
    if let Err(error) = outcome {
        let message = m.finish_action(action, outcome).0.status_message->0;
        assert(message.len() >= error.len());
        assert(message.skip(message.len() - error.len()) =~= error);
    }
}

/// Only the calls that may prompt for credentials and wait for the network
/// ask for the terminal: push, pull, sync and the push of a new branch.
pub proof fn law_terminal_is_handed_back_for_remote_calls(action: ActionModel)
    ensures
        action.suspends_terminal() <==> (action is Push || action is Pull || action is Sync
            || action is PushBranch),
{
}

/// An action that failed changes nothing but the status line, and nothing
/// more is asked of the repository: a dialog that was open stays open with
/// its text, so that the operator can try again or cancel. The one exception
/// is the push of a branch that was just created: the branch exists, so the
/// dialog closes whether the push went through or not.
pub proof fn law_failed_action_changes_only_the_status(
    m: AppModel,
    action: ActionModel,
    error: Seq<char>,
)
    requires
        !(action is PushBranch),
    ensures
        m.finish_action(action, Err(error)).1 is Idle,
        m.finish_action(action, Err(error)).0 == m.set_status(
            m.finish_action(action, Err(error)).0.status_message->0,
        ),
{
}

/// Among branches with distinct names at most one is marked as checked out.
pub proof fn law_at_most_one_current_branch(names: Seq<Seq<char>>, current: Seq<char>)
    requires
        forall|i: int, j: int| 0 <= i < j < names.len() ==> names[i] != names[j],
    ensures
        forall|i: int, j: int|
            #![trigger names[i], names[j]]
            0 <= i < names.len() && 0 <= j < names.len() && branch_infos_of(
                names,
                current,
            )[i].is_current && branch_infos_of(names, current)[j].is_current ==> i == j,
{
    assert forall|i: int, j: int|
        #![trigger names[i], names[j]]
        0 <= i < names.len() && 0 <= j < names.len() && branch_infos_of(
            names,
            current,
        )[i].is_current && branch_infos_of(names, current)[j].is_current implies i == j by {
        if i < j {
            assert(names[i] != names[j]);
        } else if j < i {
            assert(names[j] != names[i]);
        }
    }
}

} // verus!
