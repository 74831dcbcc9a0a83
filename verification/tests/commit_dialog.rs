use git_tui::app::{App, Dialog, FileStatus};
use git_tui::input::{finish_action, handle_key_event, Key};
use git_tui::step::{Action, Step, Then};
use std::path::PathBuf;

fn commit_app() -> App {
    let mut app = App::new(PathBuf::from("."));
    app.files_state.files = vec![FileStatus { path: "a.txt".to_string(), status: "M ".to_string() }];
    app
}

fn commit_type(app: &mut App, text: &str) {
    for c in text.chars() {
        let step = handle_key_event(app, Key::Char(c));
        assert!(matches!(step, Step::Idle));
    }
}

#[test]
fn c_opens_the_commit_dialog_with_an_empty_message() {
    let mut app = commit_app();
    app.commit_message = "left over".to_string();
    let step = handle_key_event(&mut app, Key::Char('c'));
    assert!(matches!(step, Step::Idle));
    assert_eq!(app.dialog, Dialog::Commit);
    assert_eq!(app.commit_message, "");
}

#[test]
fn typing_and_backspace_edit_the_message() {
    let mut app = commit_app();
    handle_key_event(&mut app, Key::Char('c'));
    commit_type(&mut app, "fix bug");
    assert_eq!(app.commit_message, "fix bug");
    handle_key_event(&mut app, Key::Backspace);
    handle_key_event(&mut app, Key::Backspace);
    assert_eq!(app.commit_message, "fix b");
    for _ in 0..10 {
        handle_key_event(&mut app, Key::Backspace);
    }
    assert_eq!(app.commit_message, "");
    assert_eq!(app.dialog, Dialog::Commit);
}

#[test]
fn an_open_dialog_takes_the_global_and_navigation_keys_as_text() {
    let mut app = commit_app();
    handle_key_event(&mut app, Key::Char('c'));
    commit_type(&mut app, "q123rjkPpSsa");
    assert_eq!(app.commit_message, "q123rjkPpSsa");
    assert!(!app.should_quit);
    assert_eq!(app.current_view, git_tui::view::View::Files);
    assert!(app.status_message.is_none());
    for key in [Key::Up, Key::Down, Key::PageUp, Key::PageDown, Key::Tab, Key::Other] {
        let step = handle_key_event(&mut app, key);
        assert!(matches!(step, Step::Idle));
    }
    assert_eq!(app.files_state.selected, 0);
    assert_eq!(app.files_state.diff_scroll, 0);
    assert_eq!(app.commit_message, "q123rjkPpSsa");
    assert_eq!(app.dialog, Dialog::Commit);
}

#[test]
fn escape_discards_the_message_and_closes() {
    let mut app = commit_app();
    handle_key_event(&mut app, Key::Char('c'));
    commit_type(&mut app, "half a thought");
    let step = handle_key_event(&mut app, Key::Esc);
    assert!(matches!(step, Step::Idle));
    assert_eq!(app.dialog, Dialog::Closed);
    assert_eq!(app.commit_message, "");
    let step = handle_key_event(&mut app, Key::Char('q'));
    assert!(matches!(step, Step::Idle));
    assert!(app.should_quit);
}

#[test]
fn enter_on_a_blank_message_does_nothing() {
    let mut app = commit_app();
    handle_key_event(&mut app, Key::Char('c'));
    let step = handle_key_event(&mut app, Key::Enter);
    assert!(matches!(step, Step::Idle));
    assert_eq!(app.dialog, Dialog::Commit);
    commit_type(&mut app, "   ");
    let step = handle_key_event(&mut app, Key::Enter);
    assert!(matches!(step, Step::Idle));
    assert_eq!(app.dialog, Dialog::Commit);
    assert_eq!(app.commit_message, "   ");
    assert!(app.status_message.is_none());
    commit_type(&mut app, "\t\u{a0}\u{3000}");
    let step = handle_key_event(&mut app, Key::Enter);
    assert!(matches!(step, Step::Idle));
}

#[test]
fn enter_commits_the_message_as_typed() {
    let mut app = commit_app();
    handle_key_event(&mut app, Key::Char('c'));
    commit_type(&mut app, "  add feature ");
    let step = handle_key_event(&mut app, Key::Enter);
    assert!(matches!(step, Step::Run(Action::Commit(ref m)) if m == "  add feature "));
    assert_eq!(app.dialog, Dialog::Commit);
    assert_eq!(app.commit_message, "  add feature ");
}

#[test]
fn a_commit_that_succeeds_closes_the_dialog_and_refreshes_the_files() {
    let mut app = commit_app();
    handle_key_event(&mut app, Key::Char('c'));
    commit_type(&mut app, "done");
    let step = finish_action(&mut app, Action::Commit("done".to_string()), Ok(()));
    assert!(matches!(step, Step::LoadStatus(Then::Stop)));
    assert_eq!(app.status_message.as_deref(), Some("Committed successfully"));
    assert_eq!(app.dialog, Dialog::Closed);
    assert_eq!(app.commit_message, "");
}

#[test]
fn a_commit_that_fails_keeps_the_dialog_and_the_message() {
    let mut app = commit_app();
    handle_key_event(&mut app, Key::Char('c'));
    commit_type(&mut app, "done");
    let step = finish_action(
        &mut app,
        Action::Commit("done".to_string()),
        Err("nothing to commit".to_string()),
    );
    assert!(matches!(step, Step::Idle));
    assert_eq!(app.status_message.as_deref(), Some("Commit failed: nothing to commit"));
    assert_eq!(app.dialog, Dialog::Commit);
    assert_eq!(app.commit_message, "done");
    let retry = handle_key_event(&mut app, Key::Enter);
    assert!(matches!(retry, Step::Run(Action::Commit(ref m)) if m == "done"));
}
