use backend_supervisor::supervisor::{
    already_running_text, stopped_text, ProcessHandle, SpawnOutcome, StartDecision,
    SupervisorState,
};

#[test]
fn scenario_a_start_on_idle_succeeds() {
    let mut s = SupervisorState::new();
    assert!(!s.started);
    assert!(s.handle.is_none());

    let d = s.begin_start();
    assert_eq!(d, StartDecision::Spawn);
    assert!(s.started);

    let r = s.finish_start(SpawnOutcome::Spawned(ProcessHandle { id: 41 }));
    assert_eq!(r, Ok("Backend started".to_string()));
    assert!(s.started);
    assert_eq!(s.handle, Some(ProcessHandle { id: 41 }));
}

#[test]
fn scenario_b_second_start_already_running() {
    let mut s = SupervisorState::new();
    assert_eq!(s.begin_start(), StartDecision::Spawn);
    let r = s.finish_start(SpawnOutcome::Spawned(ProcessHandle { id: 1 }));
    assert!(r.is_ok());

    // The second call must not be told to spawn: only one process exists.
    let d2 = s.begin_start();
    assert_eq!(d2, StartDecision::AlreadyRunning);
    assert_eq!(already_running_text(), "Backend already running");
    assert_eq!(s.handle, Some(ProcessHandle { id: 1 }));
}

#[test]
fn scenario_c_invalid_sidecar_construction_fails() {
    let mut s = SupervisorState::new();
    assert_eq!(s.begin_start(), StartDecision::Spawn);

    let r = s.finish_start(SpawnOutcome::ConstructionFailed(
        "unknown sidecar identifier".to_string(),
    ));
    let err = r.unwrap_err();
    assert!(err.contains("Failed to create sidecar command"));
    assert!(!s.started);
    assert!(s.handle.is_none());
}

#[test]
fn scenario_c_spawn_failure_surfaced() {
    let mut s = SupervisorState::new();
    assert_eq!(s.begin_start(), StartDecision::Spawn);

    let r = s.finish_start(SpawnOutcome::SpawnFailed("permission denied".to_string()));
    let err = r.unwrap_err();
    assert!(err.contains("Failed to spawn sidecar"));
    assert!(!s.started);
    assert!(s.handle.is_none());
}

#[test]
fn scenario_d_stop_resets_and_allows_restart() {
    let mut s = SupervisorState::new();
    assert_eq!(s.begin_start(), StartDecision::Spawn);
    let r = s.finish_start(SpawnOutcome::Spawned(ProcessHandle { id: 9 }));
    assert!(r.is_ok());

    let to_kill = s.stop();
    assert_eq!(to_kill, Some(ProcessHandle { id: 9 }));
    assert_eq!(stopped_text(), "Backend stopped");
    assert!(!s.started);
    assert!(s.handle.is_none());

    // No permanent lockout: a following start succeeds again.
    assert_eq!(s.begin_start(), StartDecision::Spawn);
    let r2 = s.finish_start(SpawnOutcome::Spawned(ProcessHandle { id: 10 }));
    assert_eq!(r2, Ok("Backend started".to_string()));
    assert_eq!(s.handle, Some(ProcessHandle { id: 10 }));
}

#[test]
fn rollback_leaves_state_as_if_never_started() {
    let mut s = SupervisorState::new();
    assert_eq!(s.begin_start(), StartDecision::Spawn);
    let r = s.finish_start(SpawnOutcome::SpawnFailed("boom".to_string()));
    assert!(r.is_err());

    // Observably false immediately after the failed call returns.
    assert!(!s.started);
    assert!(s.handle.is_none());

    // The next attempt is treated exactly like a first one.
    let fresh = SupervisorState::new();
    assert_eq!(s.started, fresh.started);
    assert_eq!(s.handle, fresh.handle);
    assert_eq!(s.begin_start(), StartDecision::Spawn);
}

#[test]
fn stop_when_idle_is_a_safe_no_op() {
    let mut s = SupervisorState::new();
    let to_kill = s.stop();
    assert_eq!(to_kill, None);
    assert!(!s.started);
    assert!(s.handle.is_none());

    // Stopping twice is just as safe.
    assert_eq!(s.stop(), None);
    assert!(!s.started);
}

#[test]
fn error_messages_exact() {
    let mut s = SupervisorState::new();
    s.begin_start();
    let r = s.finish_start(SpawnOutcome::ConstructionFailed("no file".to_string()));
    assert_eq!(
        r,
        Err("Failed to create sidecar command: no file".to_string())
    );

    s.begin_start();
    let r2 = s.finish_start(SpawnOutcome::SpawnFailed("exec format error".to_string()));
    assert_eq!(r2, Err("Failed to spawn sidecar: exec format error".to_string()));
}
