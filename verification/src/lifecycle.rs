//! Host lifecycle hooks.
//!
//! The host application feeds the supervisor exactly two lifecycle events:
//! "setup complete", fired once after the main window object exists but
//! before it is shown, which triggers a start attempt; and "close
//! requested", fired when the window is about to close, which triggers a
//! synchronous stop so no child process survives a normal shutdown. The
//! host performs the directive each hook returns — spawning, or killing
//! the handed-back child — before it lets the triggering event proceed.

use crate::supervisor::ProcessHandle;
use crate::supervisor::StartDecision;
use crate::supervisor::SupervisorState;
use vstd::prelude::*;

verus! {

/// A lifecycle event of the host application.
#[derive(Clone, Copy, PartialEq, Eq, Structural, Debug)]
pub enum HostEvent {
    /// The host finished its setup; the window exists but is not yet shown.
    /// The host reveals the window only after a grace delay — a best-effort
    /// readiness heuristic, not a confirmed-ready signal.
    SetupComplete,
    /// The user or the OS asked to close the window; teardown must happen
    /// before the close is allowed to proceed.
    CloseRequested,
}

/// What the host must do after handing a lifecycle event to the supervisor.
pub enum HostDirective {
    /// Build the sidecar command, spawn it, and report the outcome to
    /// `finish_start`.
    Spawn,
    /// A backend is already running; nothing to do.
    AlreadyRunning,
    /// Issue a best-effort kill to this child, if one is given, before the
    /// close proceeds.
    Kill(Option<ProcessHandle>),
}

/// What `handle_host_event` does: a setup-complete event takes the start
/// path, a close request takes the stop path.
pub open spec fn spec_handle_host_event(s: SupervisorState, e: HostEvent) -> (
    SupervisorState,
    HostDirective,
) {
    match e {
        HostEvent::SetupComplete => {
            let (s2, d) = s.spec_begin_start();
            (
                s2,
                match d {
                    StartDecision::Spawn => HostDirective::Spawn,
                    StartDecision::AlreadyRunning => HostDirective::AlreadyRunning,
                },
            )
        },
        HostEvent::CloseRequested => {
            let (s2, to_kill) = s.spec_stop();
            (s2, HostDirective::Kill(to_kill))
        },
    }
}

/// Dispatches one host lifecycle event to the supervisor, inside the
/// state's exclusive lock, and returns the directive the host must perform
/// before the event proceeds. A setup-complete event opens a start attempt
/// exactly as `begin_start` does; a close request stops exactly as `stop`
/// does, so the kill directive is in the host's hands before the event
/// handler returns.
pub fn handle_host_event(s: &mut SupervisorState, e: HostEvent) -> (d: HostDirective)
    requires
        old(s).wf(),
    ensures
        final(s).wf(),
        *final(s) == spec_handle_host_event(*old(s), e).0,
        d == spec_handle_host_event(*old(s), e).1,
{
    match e {
        HostEvent::SetupComplete => {
            match s.begin_start() {
                StartDecision::Spawn => HostDirective::Spawn,
                StartDecision::AlreadyRunning => HostDirective::AlreadyRunning,
            }
        },
        HostEvent::CloseRequested => HostDirective::Kill(s.stop()),
    }
}

/// Law: a close request guarantees teardown. After a successful start —
/// the state is running with handle `h` — handling a close request directs
/// the kill of exactly that child before the handler returns, and leaves
/// the state idle; and whatever the state, a close request always leaves
/// it idle with the stored handle, if any, on the kill path.
pub proof fn lemma_close_request_tears_down(s: SupervisorState, h: ProcessHandle)
    ensures
        spec_handle_host_event(s, HostEvent::CloseRequested).0.is_idle(),
        spec_handle_host_event(s, HostEvent::CloseRequested).1 == HostDirective::Kill(s.handle),
        s.is_running() && s.handle == Some(h) ==> spec_handle_host_event(
            s,
            HostEvent::CloseRequested,
        ).1 == HostDirective::Kill(Some(h)),
{
}

} // verus!
