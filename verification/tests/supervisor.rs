use cli_supervisor::manager::{is_dev_mode, CliProcessManager, CliStatus};
use cli_supervisor::restart::{RestartAction, RestartSequence};
use cli_supervisor::shutdown::{begins_shutdown, ShellEvent, ShutdownSequence};
use cli_supervisor::{cli_get_status, startup_error_channel, AppState};

#[test]
fn dev_mode_is_debug_or_override() {
    assert!(!is_dev_mode(false, false));
    assert!(is_dev_mode(true, false));
    assert!(is_dev_mode(false, true));
    assert!(is_dev_mode(true, true));
}

#[test]
fn restart_stops_then_starts() {
    let mut seq = RestartSequence::new(true);
    assert_eq!(seq.next_action(), RestartAction::Stop);
    seq.record_stop(Ok(()));
    assert_eq!(seq.next_action(), RestartAction::Start { dev_mode: true });
    seq.record_start(Ok(()));
    assert_eq!(seq.next_action(), RestartAction::Done);
    let status = CliStatus { running: true, dev_mode: true };
    assert_eq!(seq.into_result(status), Ok(status));
}

#[test]
fn restart_keeps_release_mode() {
    let mut seq = RestartSequence::new(false);
    seq.record_stop(Ok(()));
    assert_eq!(seq.next_action(), RestartAction::Start { dev_mode: false });
}

#[test]
fn failing_stop_skips_start() {
    let mut seq = RestartSequence::new(true);
    assert_eq!(seq.next_action(), RestartAction::Stop);
    seq.record_stop(Err(String::from("stop failed")));
    assert_eq!(seq.next_action(), RestartAction::Done);
    let status = CliStatus { running: false, dev_mode: true };
    assert_eq!(seq.into_result(status), Err(String::from("stop failed")));
}

#[test]
fn failing_start_reports_the_error() {
    let mut seq = RestartSequence::new(false);
    seq.record_stop(Ok(()));
    seq.record_start(Err(String::from("spawn failed")));
    assert_eq!(seq.next_action(), RestartAction::Done);
    let status = CliStatus { running: false, dev_mode: false };
    assert_eq!(seq.into_result(status), Err(String::from("spawn failed")));
}

#[test]
fn shutdown_stops_the_child_exactly_once() {
    let mut guard = ShutdownSequence::new();
    assert!(guard.request_stop());
    assert!(!guard.request_stop());
    assert!(!guard.request_stop());
    assert_eq!(guard.exit_code(), 0);
}

#[test]
fn exit_request_begins_shutdown() {
    assert!(begins_shutdown(&ShellEvent::ExitRequested));
}

#[test]
fn last_window_destroyed_begins_shutdown() {
    assert!(begins_shutdown(&ShellEvent::WindowDestroyed { windows_open: 1 }));
    assert!(begins_shutdown(&ShellEvent::WindowDestroyed { windows_open: 0 }));
    assert!(!begins_shutdown(&ShellEvent::WindowDestroyed { windows_open: 2 }));
}

#[test]
fn other_events_do_not_begin_shutdown() {
    assert!(!begins_shutdown(&ShellEvent::Other));
}

#[test]
fn fresh_state_reports_not_running() {
    let state = AppState::new();
    let status = cli_get_status(&state);
    assert!(!status.running);
    assert!(!status.dev_mode);
}

#[test]
fn status_follows_recorded_starts_and_stops() {
    let mut state = AppState::new();
    state.manager.mark_started(true);
    let status = cli_get_status(&state);
    assert!(status.running);
    assert!(status.dev_mode);
    state.manager.mark_stopped();
    let status = cli_get_status(&state);
    assert!(!status.running);
    assert!(status.dev_mode);
}

#[test]
fn manager_status_matches_fields() {
    let mut manager = CliProcessManager::new();
    assert_eq!(manager.status(), CliStatus { running: false, dev_mode: false });
    manager.mark_started(false);
    assert_eq!(manager.status(), CliStatus { running: true, dev_mode: false });
}

#[test]
fn startup_errors_go_to_the_cli_error_channel() {
    assert_eq!(startup_error_channel(), "cli:error");
}
