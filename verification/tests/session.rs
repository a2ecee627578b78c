use terminal_session::commands::TermCommand;
use terminal_session::components::{CrosstermWindow, CrosstermWindowSettings};
use terminal_session::error_handling::SessionError;
use terminal_session::window::{
    restore_terminal_on_exit, setup_commands, setup_terminal, update_title, SetupOutcome,
};

fn settings(alternate_screen: bool, mouse_capture: bool, title: Option<&str>) -> CrosstermWindowSettings {
    CrosstermWindowSettings {
        title: title.map(|t| t.to_string()),
        alternate_screen,
        mouse_capture,
    }
}

fn live_window(alternate_screen: bool, mouse_capture: bool, title: Option<&str>) -> CrosstermWindow {
    let (cleanup, result) = setup_terminal(
        &settings(alternate_screen, mouse_capture, title),
        SetupOutcome::Completed(80, 24),
    );
    assert!(cleanup.is_empty());
    result.expect("successful setup returns a window")
}

#[test]
fn default_settings_take_alternate_screen_and_mouse() {
    let s = CrosstermWindowSettings::default();
    assert!(s.alternate_screen);
    assert!(s.mouse_capture);
    assert!(s.title.is_none());
}

#[test]
fn startup_scenario_with_title() {
    let s = settings(true, true, Some("Demo"));
    assert_eq!(
        setup_commands(&s),
        vec![
            TermCommand::EnableMouseCapture,
            TermCommand::EnterAlternateScreen,
            TermCommand::SetTitle("Demo".to_string()),
        ]
    );
    let (cleanup, result) = setup_terminal(&s, SetupOutcome::Completed(120, 40));
    assert!(cleanup.is_empty());
    let w = result.expect("setup succeeded");
    assert_eq!(w.width(), 120);
    assert_eq!(w.height(), 40);
    assert_eq!(w.title(), Some(&"Demo".to_string()));
    assert!(w.is_alternate_screen());
    assert!(w.is_mouse_capture());
    assert!(w.is_active());
}

#[test]
fn startup_commands_follow_the_settings() {
    assert_eq!(setup_commands(&settings(false, false, None)), vec![]);
    assert_eq!(
        setup_commands(&settings(true, false, None)),
        vec![TermCommand::EnterAlternateScreen]
    );
    assert_eq!(
        setup_commands(&settings(false, true, None)),
        vec![TermCommand::EnableMouseCapture]
    );
}

#[test]
fn startup_raw_mode_failure_is_terminal_unavailable() {
    let (cleanup, result) = setup_terminal(&settings(true, true, None), SetupOutcome::RawModeFailed);
    assert!(cleanup.is_empty());
    match result {
        Err(SessionError::TerminalUnavailable) => {}
        other => panic!("expected TerminalUnavailable, got {:?}", other.map(|_| ())),
    }
}

#[test]
fn startup_size_failure_disables_raw_mode() {
    let (cleanup, result) = setup_terminal(&settings(true, true, None), SetupOutcome::SizeQueryFailed);
    assert_eq!(cleanup, vec![TermCommand::DisableRawMode]);
    match result {
        Err(SessionError::IoFailure) => {}
        other => panic!("expected IoFailure, got {:?}", other.map(|_| ())),
    }
}

#[test]
fn startup_command_failure_leaves_no_raw_mode_behind() {
    // The alternate-screen step failing after raw mode was entered must be
    // accompanied by raw mode being disabled before the error propagates.
    let (cleanup, result) = setup_terminal(&settings(true, true, None), SetupOutcome::CommandFailed);
    assert_eq!(cleanup, vec![TermCommand::DisableRawMode]);
    assert!(result.is_err());
}

#[test]
fn restoration_is_idempotent() {
    let mut w = live_window(true, true, Some("Demo"));
    let first = restore_terminal_on_exit(true, &mut w);
    assert_eq!(
        first,
        vec![
            TermCommand::DisableMouseCapture,
            TermCommand::LeaveAlternateScreen,
            TermCommand::Flush,
            TermCommand::DisableRawMode,
        ]
    );
    assert!(!w.is_active());
    // Every later checkpoint sees a retired window and does nothing.
    assert_eq!(restore_terminal_on_exit(true, &mut w), vec![]);
    assert_eq!(restore_terminal_on_exit(true, &mut w), vec![]);
    assert_eq!(w.width(), 80);
    assert_eq!(w.height(), 24);
    assert_eq!(w.title(), Some(&"Demo".to_string()));
}

#[test]
fn restoration_without_exit_request_is_a_no_op() {
    let mut w = live_window(true, true, None);
    assert_eq!(restore_terminal_on_exit(false, &mut w), vec![]);
    assert!(w.is_active());
}

#[test]
fn restoration_disables_exactly_the_entered_modes() {
    for &(alt, mouse) in &[(false, false), (false, true), (true, false), (true, true)] {
        let mut w = live_window(alt, mouse, None);
        let mut expected = Vec::new();
        if mouse {
            expected.push(TermCommand::DisableMouseCapture);
        }
        if alt {
            expected.push(TermCommand::LeaveAlternateScreen);
        }
        expected.push(TermCommand::Flush);
        expected.push(TermCommand::DisableRawMode);
        assert_eq!(restore_terminal_on_exit(true, &mut w), expected);
    }
}

#[test]
fn title_update_issues_the_new_title() {
    let w = live_window(true, true, Some("Demo"));
    let (cmds, removed) = update_title(&w, true);
    assert_eq!(cmds, vec![TermCommand::SetTitle("Demo".to_string())]);
    assert!(!removed);
}

#[test]
fn title_update_without_change_is_quiet() {
    let w = live_window(true, true, Some("Demo"));
    let (cmds, removed) = update_title(&w, false);
    assert_eq!(cmds, vec![]);
    assert!(!removed);
}

#[test]
fn cleared_title_is_reported_as_removed() {
    let w = live_window(true, true, None);
    let (cmds, removed) = update_title(&w, true);
    assert_eq!(cmds, vec![TermCommand::ClearTitle]);
    assert!(removed);
}

#[test]
fn set_title_records_the_new_value() {
    let mut w = live_window(true, true, None);
    w.set_title("Later".to_string());
    assert_eq!(w.title(), Some(&"Later".to_string()));
}

#[test]
fn set_mouse_capture_toggles_and_reports_the_command() {
    let mut w = live_window(true, true, None);
    assert_eq!(w.set_mouse_capture(true), None);
    assert_eq!(w.set_mouse_capture(false), Some(TermCommand::DisableMouseCapture));
    assert!(!w.is_mouse_capture());
    assert_eq!(w.set_mouse_capture(true), Some(TermCommand::EnableMouseCapture));
    assert!(w.is_mouse_capture());
}
