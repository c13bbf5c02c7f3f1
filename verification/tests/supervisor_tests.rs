use sync_supervisor::events::LifecycleState;
use sync_supervisor::settings::SyncSettings;
use sync_supervisor::supervisor::{
    monitor_lock_failure_event, stop_event_plan, tick_event_plan, Probe, StartDecision, StopPlan,
    Supervisor, SyncError, TickOutcome, Worker,
};

fn valid_settings() -> SyncSettings {
    SyncSettings {
        client_id: String::from("id"),
        client_secret: String::from("secret"),
        spotify_redirect_uri: None,
        steam_username: String::from("user"),
        steam_password: String::from("pass"),
        not_playing: String::from("idle text"),
    }
}

fn running_supervisor(pid: u32) -> Supervisor {
    Supervisor {
        worker: Some(Worker {
            pid,
            has_input: true,
        }),
    }
}

#[test]
fn start_against_live_worker_is_refused_without_touching_the_cell() {
    let mut sup = running_supervisor(41);
    let d = sup.start_sync_plan(&valid_settings(), Some(Probe::Alive));
    assert_eq!(d, StartDecision::AlreadyRunning);
    assert_eq!(sup.worker_pid(), Some(41));
}

#[test]
fn start_on_empty_cell_proceeds_and_commit_stores_the_handle() {
    let mut sup = Supervisor::new();
    let d = sup.start_sync_plan(&valid_settings(), None);
    assert_eq!(d, StartDecision::Proceed);
    sup.start_sync_commit(7, true);
    assert_eq!(sup.worker_pid(), Some(7));
}

#[test]
fn start_clears_a_handle_that_already_exited_and_proceeds() {
    let mut sup = running_supervisor(9);
    let d = sup.start_sync_plan(&valid_settings(), Some(Probe::Exited { code: Some(0) }));
    assert_eq!(d, StartDecision::Proceed);
    assert_eq!(sup.worker_pid(), None);
}

#[test]
fn start_with_empty_required_field_is_rejected_before_any_os_interaction() {
    let mut empty_id = valid_settings();
    empty_id.client_id = String::new();
    let mut empty_secret = valid_settings();
    empty_secret.client_secret = String::new();
    let mut empty_user = valid_settings();
    empty_user.steam_username = String::new();
    let mut empty_pass = valid_settings();
    empty_pass.steam_password = String::new();
    for settings in [empty_id, empty_secret, empty_user, empty_pass] {
        let mut sup = Supervisor::new();
        let d = sup.start_sync_plan(&settings, None);
        assert_eq!(d, StartDecision::RejectValidation);
        assert_eq!(sup.worker_pid(), None);
    }
}

#[test]
fn stop_on_idle_supervisor_succeeds_with_exactly_one_idle_event() {
    let mut sup = Supervisor::new();
    let plan = sup.stop_sync();
    assert_eq!(plan, StopPlan::AlreadyIdle);
    let events = stop_event_plan(&plan);
    assert_eq!(events.len(), 1);
    assert_eq!(events[0].state, LifecycleState::Idle);
    assert_eq!(events[0].exit_code, None);
}

#[test]
fn stop_on_running_worker_kills_and_clears_then_second_stop_is_idle() {
    let mut sup = running_supervisor(23);
    let plan = sup.stop_sync();
    assert_eq!(plan, StopPlan::Kill { pid: 23 });
    assert_eq!(sup.worker_pid(), None);
    let events = stop_event_plan(&plan);
    assert_eq!(events.len(), 2);
    assert_eq!(events[0].state, LifecycleState::Stopping);
    assert_eq!(events[1].state, LifecycleState::Stopped);
    let again = sup.stop_sync();
    assert_eq!(again, StopPlan::AlreadyIdle);
}

#[test]
fn status_after_stop_reports_not_running_and_restart_succeeds() {
    let mut sup = running_supervisor(5);
    sup.stop_sync();
    let status = sup.get_sync_status(None).unwrap();
    assert!(!status.running);
    let d = sup.start_sync_plan(&valid_settings(), None);
    assert_eq!(d, StartDecision::Proceed);
    sup.start_sync_commit(6, true);
    assert_eq!(sup.worker_pid(), Some(6));
}

#[test]
fn status_clears_an_exited_worker_and_reports_not_running() {
    let mut sup = running_supervisor(11);
    let running = sup
        .is_sync_running(Some(Probe::Exited { code: Some(1) }))
        .unwrap();
    assert!(!running);
    assert_eq!(sup.worker_pid(), None);
}

#[test]
fn status_keeps_a_live_worker() {
    let mut sup = running_supervisor(11);
    let running = sup.is_sync_running(Some(Probe::Alive)).unwrap();
    assert!(running);
    assert_eq!(sup.worker_pid(), Some(11));
}

#[test]
fn status_discards_handle_when_inspection_fails() {
    let mut sup = running_supervisor(11);
    let r = sup.is_sync_running(Some(Probe::Failed));
    assert_eq!(r, Err(SyncError::Inspect));
    assert_eq!(sup.worker_pid(), None);
}

#[test]
fn submit_rejects_empty_and_whitespace_input() {
    let mut sup = running_supervisor(3);
    assert_eq!(
        sup.submit_steam_guard_code("", Some(Probe::Alive)),
        Err(SyncError::Validation)
    );
    assert_eq!(
        sup.submit_steam_guard_code("   ", Some(Probe::Alive)),
        Err(SyncError::Validation)
    );
    assert_eq!(sup.worker_pid(), Some(3));
}

#[test]
fn submit_payload_is_exactly_the_trimmed_code_and_a_newline() {
    let mut sup = running_supervisor(3);
    let payload = sup
        .submit_steam_guard_code("123456", Some(Probe::Alive))
        .unwrap();
    assert_eq!(payload.as_bytes(), b"123456\n");
    let padded = sup
        .submit_steam_guard_code("  98765  ", Some(Probe::Alive))
        .unwrap();
    assert_eq!(padded.as_bytes(), b"98765\n");
}

#[test]
fn submit_fails_when_no_worker_is_live() {
    let mut sup = Supervisor::new();
    assert_eq!(
        sup.submit_steam_guard_code("123456", None),
        Err(SyncError::NotRunning)
    );
}

#[test]
fn submit_fails_and_clears_when_worker_already_exited() {
    let mut sup = running_supervisor(3);
    assert_eq!(
        sup.submit_steam_guard_code("123456", Some(Probe::Exited { code: None })),
        Err(SyncError::NotRunning)
    );
    assert_eq!(sup.worker_pid(), None);
}

#[test]
fn submit_fails_when_worker_input_is_unavailable() {
    let mut sup = Supervisor {
        worker: Some(Worker {
            pid: 3,
            has_input: false,
        }),
    };
    assert_eq!(
        sup.submit_steam_guard_code("123456", Some(Probe::Alive)),
        Err(SyncError::Io)
    );
}

#[test]
fn monitor_tick_detects_exit_and_reports_the_exact_code() {
    let mut sup = running_supervisor(17);
    let outcome = sup.sync_monitor_tick(Some(Probe::Exited { code: Some(3) }));
    assert_eq!(outcome, TickOutcome::WorkerExited { code: Some(3) });
    assert_eq!(sup.worker_pid(), None);
    let events = tick_event_plan(&outcome);
    assert_eq!(events.len(), 1);
    assert_eq!(events[0].state, LifecycleState::Exited);
    assert_eq!(events[0].exit_code, Some(3));
}

#[test]
fn monitor_tick_reports_a_signal_kill_without_a_code() {
    let mut sup = running_supervisor(17);
    let outcome = sup.sync_monitor_tick(Some(Probe::Exited { code: None }));
    assert_eq!(outcome, TickOutcome::WorkerExited { code: None });
    let events = tick_event_plan(&outcome);
    assert_eq!(events.len(), 1);
    assert_eq!(events[0].exit_code, None);
}

#[test]
fn monitor_tick_is_quiet_while_the_worker_runs_or_none_is_live() {
    let mut sup = running_supervisor(17);
    let outcome = sup.sync_monitor_tick(Some(Probe::Alive));
    assert_eq!(outcome, TickOutcome::StillRunning);
    assert_eq!(tick_event_plan(&outcome).len(), 0);
    let mut idle = Supervisor::new();
    let outcome = idle.sync_monitor_tick(None);
    assert_eq!(outcome, TickOutcome::NoWorker);
    assert_eq!(tick_event_plan(&outcome).len(), 0);
}

#[test]
fn monitor_tick_clears_defensively_on_inspection_failure() {
    let mut sup = running_supervisor(17);
    let outcome = sup.sync_monitor_tick(Some(Probe::Failed));
    assert_eq!(outcome, TickOutcome::InspectFailed);
    assert_eq!(sup.worker_pid(), None);
    let events = tick_event_plan(&outcome);
    assert_eq!(events.len(), 1);
    assert_eq!(events[0].state, LifecycleState::Error);
}

#[test]
fn monitor_lock_failure_is_a_fatal_error_event() {
    let e = monitor_lock_failure_event();
    assert_eq!(e.state, LifecycleState::Error);
    assert_eq!(e.exit_code, None);
}

#[test]
fn open_login_requires_a_running_worker() {
    let mut sup = Supervisor::new();
    assert_eq!(
        sup.open_spotify_login(None, None),
        Err(SyncError::NotRunning)
    );
    let mut running = running_supervisor(2);
    let url = running
        .open_spotify_login(Some("http://localhost:3456/callback"), Some(Probe::Alive))
        .unwrap();
    assert_eq!(url.as_str(), "http://localhost:3456/login");
}

#[test]
fn open_login_fails_after_the_worker_exited() {
    let mut sup = running_supervisor(2);
    assert_eq!(
        sup.open_spotify_login(None, Some(Probe::Exited { code: Some(0) })),
        Err(SyncError::NotRunning)
    );
    assert_eq!(sup.worker_pid(), None);
}

#[test]
fn error_messages_are_displayable_text() {
    assert_eq!(
        SyncError::NotRunning.message().as_str(),
        "Sync is not running."
    );
    assert_eq!(
        SyncError::AlreadyRunning.message().as_str(),
        "Sync is already running"
    );
    assert_eq!(
        SyncError::Lock.message().as_str(),
        "Failed to lock process state"
    );
    assert_eq!(
        SyncError::Spawn.message().as_str(),
        "Failed to start sync process. Ensure Bun is installed."
    );
}

#[test]
fn lifecycle_state_names_match_the_wire_protocol() {
    assert_eq!(LifecycleState::Starting.name().as_str(), "starting");
    assert_eq!(LifecycleState::Running.name().as_str(), "running");
    assert_eq!(LifecycleState::Stopping.name().as_str(), "stopping");
    assert_eq!(LifecycleState::Stopped.name().as_str(), "stopped");
    assert_eq!(LifecycleState::Exited.name().as_str(), "exited");
    assert_eq!(LifecycleState::Idle.name().as_str(), "idle");
    assert_eq!(LifecycleState::Error.name().as_str(), "error");
}
