use git_tui::app::{App, BranchInfo, Dialog};
use git_tui::input::{base_branch_name, current_branch_index, finish_action, handle_key_event, Key};
use git_tui::step::{Action, Step, Then};
use git_tui::view::View;
use std::path::PathBuf;

fn branch(name: &str, is_current: bool) -> BranchInfo {
    BranchInfo { name: name.to_string(), is_current }
}

fn branches_app() -> App {
    let mut app = App::new(PathBuf::from("."));
    app.switch_view(View::Branches);
    app.branches_state.branches =
        vec![branch("dev", false), branch("main", true), branch("topic", false)];
    app.branches_state.current_branch = "main".to_string();
    app
}

fn branch_type(app: &mut App, text: &str) {
    for c in text.chars() {
        assert!(matches!(handle_key_event(app, Key::Char(c)), Step::Idle));
    }
}

#[test]
fn n_opens_the_branch_dialog_on_the_current_branch() {
    let mut app = branches_app();
    app.branch_creation.new_branch_name = "old".to_string();
    let step = handle_key_event(&mut app, Key::Char('n'));
    assert!(matches!(step, Step::Idle));
    assert_eq!(app.dialog, Dialog::BranchCreate);
    assert_eq!(app.branch_creation.new_branch_name, "");
    assert!(!app.branch_creation.selecting_base);
    assert_eq!(app.branch_creation.base_branch_selected, 1);
}

#[test]
fn without_a_current_branch_the_base_choice_stays() {
    let mut app = branches_app();
    app.branches_state.branches = vec![branch("a", false), branch("b", false), branch("c", false)];
    app.branch_creation.base_branch_selected = 2;
    handle_key_event(&mut app, Key::Char('n'));
    assert_eq!(app.branch_creation.base_branch_selected, 2);
}

#[test]
fn current_branch_index_finds_the_first_marked_entry() {
    assert_eq!(current_branch_index(&Vec::new()), None);
    assert_eq!(current_branch_index(&vec![branch("a", false), branch("b", false)]), None);
    assert_eq!(current_branch_index(&vec![branch("a", true)]), Some(0));
    assert_eq!(
        current_branch_index(&vec![branch("a", false), branch("b", true), branch("c", true)]),
        Some(1)
    );
}

#[test]
fn tab_and_enter_switch_between_the_two_modes() {
    let mut app = branches_app();
    handle_key_event(&mut app, Key::Char('n'));
    branch_type(&mut app, "feat");
    for _ in 0..5 {
        assert!(matches!(handle_key_event(&mut app, Key::Tab), Step::Idle));
        assert!(app.branch_creation.selecting_base);
        assert!(matches!(handle_key_event(&mut app, Key::Enter), Step::Idle));
        assert!(!app.branch_creation.selecting_base);
    }
    assert_eq!(app.dialog, Dialog::BranchCreate);
    assert_eq!(app.branch_creation.new_branch_name, "feat");
    assert_eq!(app.branch_creation.base_branch_selected, 1);
    assert!(app.status_message.is_none());
}

#[test]
fn base_selection_moves_within_the_branch_list() {
    let mut app = branches_app();
    handle_key_event(&mut app, Key::Char('n'));
    handle_key_event(&mut app, Key::Tab);
    handle_key_event(&mut app, Key::Down);
    assert_eq!(app.branch_creation.base_branch_selected, 2);
    handle_key_event(&mut app, Key::Char('j'));
    assert_eq!(app.branch_creation.base_branch_selected, 2);
    handle_key_event(&mut app, Key::Up);
    handle_key_event(&mut app, Key::Char('k'));
    assert_eq!(app.branch_creation.base_branch_selected, 0);
    handle_key_event(&mut app, Key::Up);
    assert_eq!(app.branch_creation.base_branch_selected, 0);
    assert_eq!(app.branches_state.selected, 0);
    assert_eq!(app.branch_creation.new_branch_name, "");
    handle_key_event(&mut app, Key::Char('x'));
    handle_key_event(&mut app, Key::Backspace);
    assert_eq!(app.branch_creation.new_branch_name, "");
    assert!(app.branch_creation.selecting_base);
}

#[test]
fn escape_closes_the_branch_dialog_from_either_mode() {
    let mut app = branches_app();
    handle_key_event(&mut app, Key::Char('n'));
    branch_type(&mut app, "feat");
    assert!(matches!(handle_key_event(&mut app, Key::Esc), Step::Idle));
    assert_eq!(app.dialog, Dialog::Closed);
    assert_eq!(app.branch_creation.new_branch_name, "");

    handle_key_event(&mut app, Key::Char('n'));
    branch_type(&mut app, "feat");
    handle_key_event(&mut app, Key::Tab);
    assert!(matches!(handle_key_event(&mut app, Key::Esc), Step::Idle));
    assert_eq!(app.dialog, Dialog::Closed);
    assert_eq!(app.branch_creation.new_branch_name, "");
    assert!(!app.branch_creation.selecting_base);
}

#[test]
fn enter_with_a_blank_name_creates_nothing() {
    let mut app = branches_app();
    handle_key_event(&mut app, Key::Char('n'));
    assert!(matches!(handle_key_event(&mut app, Key::Enter), Step::Idle));
    branch_type(&mut app, "  ");
    assert!(matches!(handle_key_event(&mut app, Key::Enter), Step::Idle));
    assert_eq!(app.dialog, Dialog::BranchCreate);
    assert_eq!(app.branch_creation.new_branch_name, "  ");
    assert!(app.status_message.is_none());
}

#[test]
fn enter_with_a_name_creates_the_branch_from_the_chosen_base() {
    let mut app = branches_app();
    handle_key_event(&mut app, Key::Char('n'));
    branch_type(&mut app, "feat");
    handle_key_event(&mut app, Key::Tab);
    handle_key_event(&mut app, Key::Down);
    handle_key_event(&mut app, Key::Enter);
    let step = handle_key_event(&mut app, Key::Enter);
    assert!(matches!(
        step,
        Step::Run(Action::CreateBranch { ref name, ref base }) if name == "feat" && base == "topic"
    ));
    assert_eq!(app.dialog, Dialog::BranchCreate);
}

#[test]
fn the_base_falls_back_to_the_checked_out_branch() {
    let mut app = branches_app();
    assert_eq!(base_branch_name(&app), "dev");
    app.branch_creation.base_branch_selected = 7;
    assert_eq!(base_branch_name(&app), "main");
    app.branches_state.branches.clear();
    app.branch_creation.base_branch_selected = 0;
    assert_eq!(base_branch_name(&app), "main");
    handle_key_event(&mut app, Key::Char('n'));
    branch_type(&mut app, "x");
    let step = handle_key_event(&mut app, Key::Enter);
    assert!(matches!(
        step,
        Step::Run(Action::CreateBranch { ref name, ref base }) if name == "x" && base == "main"
    ));
}

#[test]
fn a_created_branch_is_pushed_next() {
    let mut app = branches_app();
    handle_key_event(&mut app, Key::Char('n'));
    branch_type(&mut app, "feat");
    let step = finish_action(
        &mut app,
        Action::CreateBranch { name: "feat".to_string(), base: "main".to_string() },
        Ok(()),
    );
    assert!(matches!(step, Step::Run(Action::PushBranch(ref n)) if n == "feat"));
    assert_eq!(app.status_message.as_deref(), Some("Pushing branch to remote..."));
    assert_eq!(app.dialog, Dialog::BranchCreate);
}

#[test]
fn a_branch_that_cannot_be_created_keeps_the_dialog_and_the_name() {
    let mut app = branches_app();
    handle_key_event(&mut app, Key::Char('n'));
    branch_type(&mut app, "feat");
    let step = finish_action(
        &mut app,
        Action::CreateBranch { name: "feat".to_string(), base: "main".to_string() },
        Err("a reference with that name already exists".to_string()),
    );
    assert!(matches!(step, Step::Idle));
    assert_eq!(
        app.status_message.as_deref(),
        Some("Failed to create branch: a reference with that name already exists")
    );
    assert_eq!(app.dialog, Dialog::BranchCreate);
    assert_eq!(app.branch_creation.new_branch_name, "feat");
}

#[test]
fn a_push_that_succeeds_reports_the_branch() {
    let mut app = branches_app();
    handle_key_event(&mut app, Key::Char('n'));
    branch_type(&mut app, "feat");
    let step = finish_action(&mut app, Action::PushBranch("feat".to_string()), Ok(()));
    assert!(matches!(step, Step::LoadBranches(Then::Stop)));
    assert_eq!(app.status_message.as_deref(), Some("Created and pushed branch: feat"));
    assert_eq!(app.dialog, Dialog::Closed);
    assert_eq!(app.branch_creation.new_branch_name, "");
}

#[test]
fn push_failure_after_create_leaves_the_branch_created_locally() {
    let mut app = branches_app();
    handle_key_event(&mut app, Key::Char('n'));
    branch_type(&mut app, "feat");
    let step = handle_key_event(&mut app, Key::Enter);
    let action = match step {
        Step::Run(action) => action,
        _ => panic!("no action"),
    };
    let step = finish_action(&mut app, action, Ok(()));
    let action = match step {
        Step::Run(action) => action,
        _ => panic!("no push"),
    };
    assert!(action.suspends_terminal());
    let step = finish_action(&mut app, action, Err("authentication required".to_string()));
    assert_eq!(
        app.status_message.as_deref(),
        Some("Created branch locally but failed to push: authentication required")
    );
    assert!(matches!(step, Step::LoadBranches(Then::Stop)));
    assert_eq!(app.dialog, Dialog::Closed);
    assert_eq!(app.branch_creation.new_branch_name, "");
}
