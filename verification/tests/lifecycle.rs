use backend_supervisor::lifecycle::{handle_host_event, HostDirective, HostEvent};
use backend_supervisor::supervisor::{ProcessHandle, SpawnOutcome, SupervisorState};

#[test]
fn setup_complete_opens_a_start_attempt() {
    let mut s = SupervisorState::new();
    let d = handle_host_event(&mut s, HostEvent::SetupComplete);
    match d {
        HostDirective::Spawn => {}
        _ => panic!("setup-complete on an idle supervisor must direct a spawn"),
    }
    assert!(s.started);
}

#[test]
fn setup_complete_twice_reports_already_running() {
    let mut s = SupervisorState::new();
    handle_host_event(&mut s, HostEvent::SetupComplete);
    let r = s.finish_start(SpawnOutcome::Spawned(ProcessHandle { id: 3 }));
    assert!(r.is_ok());

    let d = handle_host_event(&mut s, HostEvent::SetupComplete);
    match d {
        HostDirective::AlreadyRunning => {}
        _ => panic!("a second setup-complete must not spawn a second backend"),
    }
    assert_eq!(s.handle, Some(ProcessHandle { id: 3 }));
}

#[test]
fn close_request_after_start_takes_kill_path() {
    let mut s = SupervisorState::new();
    handle_host_event(&mut s, HostEvent::SetupComplete);
    let r = s.finish_start(SpawnOutcome::Spawned(ProcessHandle { id: 12 }));
    assert!(r.is_ok());

    // The kill directive is in the host's hands before the handler returns.
    let d = handle_host_event(&mut s, HostEvent::CloseRequested);
    match d {
        HostDirective::Kill(to_kill) => assert_eq!(to_kill, Some(ProcessHandle { id: 12 })),
        _ => panic!("a close request after a successful start must direct a kill"),
    }
    assert!(!s.started);
    assert!(s.handle.is_none());
}

#[test]
fn close_request_when_idle_is_safe() {
    let mut s = SupervisorState::new();
    let d = handle_host_event(&mut s, HostEvent::CloseRequested);
    match d {
        HostDirective::Kill(to_kill) => assert_eq!(to_kill, None),
        _ => panic!("a close request always takes the stop path"),
    }
    assert!(!s.started);
    assert!(s.handle.is_none());
}

#[test]
fn full_session_cycle() {
    let mut s = SupervisorState::new();

    // Session one: setup, spawn, run, close.
    match handle_host_event(&mut s, HostEvent::SetupComplete) {
        HostDirective::Spawn => {}
        _ => panic!("first start must spawn"),
    }
    assert!(s
        .finish_start(SpawnOutcome::Spawned(ProcessHandle { id: 1 }))
        .is_ok());
    match handle_host_event(&mut s, HostEvent::CloseRequested) {
        HostDirective::Kill(Some(h)) => assert_eq!(h, ProcessHandle { id: 1 }),
        _ => panic!("teardown must kill the running child"),
    }

    // The supervisor can cycle: a new session starts cleanly.
    match handle_host_event(&mut s, HostEvent::SetupComplete) {
        HostDirective::Spawn => {}
        _ => panic!("restart after a clean stop must spawn"),
    }
}
