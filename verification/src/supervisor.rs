//! The supervisor state machine.
//!
//! `SupervisorState` holds the process-wide state that the host protects
//! with an exclusive lock: whether a start attempt has begun, and the
//! handle of the running child, if any. Every read or mutation of the
//! state goes through the operations here, each of which is one short
//! critical section for the host.
//!
//! Starting is split in two, because the spawn itself is the host's work:
//! `begin_start` atomically test-and-sets the `started` flag and decides
//! whether a spawn may proceed; the host then builds the sidecar command
//! and spawns it; `finish_start` records the outcome, rolling the state
//! back to idle on failure. `stop` takes the handle out for the host to
//! kill and unconditionally resets the state.

use vstd::prelude::*;
use vstd::string::StringExecFns;

verus! {

/// The status message a duplicate start attempt reports. Not a failure.
pub open spec fn already_running_message() -> Seq<char> {
    "Backend already running"@
}

/// The status message a successful start reports.
pub open spec fn started_message() -> Seq<char> {
    "Backend started"@
}

/// The status message every stop reports.
pub open spec fn stopped_message() -> Seq<char> {
    "Backend stopped"@
}

/// The error a failed sidecar-command construction surfaces, with the
/// host's description of the underlying failure appended.
pub open spec fn construction_failed_message(detail: Seq<char>) -> Seq<char> {
    "Failed to create sidecar command: "@ + detail
}

/// The error a failed spawn surfaces, with the host's description of the
/// underlying OS failure appended.
pub open spec fn spawn_failed_message(detail: Seq<char>) -> Seq<char> {
    "Failed to spawn sidecar: "@ + detail
}

/// Builds the "Backend already running" status message.
pub fn already_running_text() -> (r: String)
    ensures
        r@ == already_running_message(),
{
    "Backend already running".to_owned()
}

/// Builds the "Backend stopped" status message.
pub fn stopped_text() -> (r: String)
    ensures
        r@ == stopped_message(),
{
    "Backend stopped".to_owned()
}

/// Identifies one spawned child process and carries the capability to
/// request its termination. The host maps the identifier back to the real
/// OS child when it performs the kill; the supervisor owns at most one
/// handle at a time and never duplicates it.
#[derive(Clone, Copy, PartialEq, Eq, Structural, Debug)]
pub struct ProcessHandle {
    /// Opaque identifier of the child in the host's process table.
    pub id: u64,
}

/// The supervisor's lock-protected state.
pub struct SupervisorState {
    /// True once a start attempt has begun. Set before the spawn completes,
    /// to close the race between two concurrent start attempts; reset only
    /// by an explicit stop or by a spawn failure.
    pub started: bool,
    /// The running child, present only while the child is believed alive.
    /// Exclusively owned here; `stop` moves it out and consumes it.
    pub handle: Option<ProcessHandle>,
}

/// What `begin_start` decided.
#[derive(Clone, Copy, PartialEq, Eq, Structural, Debug)]
pub enum StartDecision {
    /// A start had already begun: report "Backend already running" and do
    /// nothing further.
    AlreadyRunning,
    /// The start is now this caller's: the host must build the sidecar
    /// command, spawn it, and report the outcome to `finish_start`.
    Spawn,
}

/// What the host's spawn attempt produced, reported back to `finish_start`.
pub enum SpawnOutcome {
    /// The child is running; its handle, to be stored by the supervisor.
    Spawned(ProcessHandle),
    /// Building the sidecar command descriptor failed (for instance, the
    /// bundled binary is missing); the host's description of the failure.
    ConstructionFailed(String),
    /// The OS-level spawn failed; the host's description of the failure.
    SpawnFailed(String),
}

/// The view of a start or stop response: the status or error text as a
/// character sequence.
pub open spec fn response_view(r: Result<String, String>) -> Result<Seq<char>, Seq<char>> {
    match r {
        Ok(s) => Ok(s@),
        Err(s) => Err(s@),
    }
}

impl SupervisorState {
    /// Invariant: a stored handle implies a start has begun. The converse
    /// does not hold: `started` is true while a spawn is in flight and the
    /// handle is not yet stored.
    pub open spec fn wf(self) -> bool {
        self.handle is Some ==> self.started
    }

    /// No start in progress and no child: the state a fresh supervisor has,
    /// and the state every stop and every failed start returns to.
    pub open spec fn is_idle(self) -> bool {
        !self.started && self.handle is None
    }

    /// A start succeeded and its child's handle is stored.
    pub open spec fn is_running(self) -> bool {
        self.started && self.handle is Some
    }

    /// The state a supervisor is created in.
    pub open spec fn spec_init() -> SupervisorState {
        SupervisorState { started: false, handle: None }
    }

    /// Creates the supervisor state for one application session.
    pub fn new() -> (s: SupervisorState)
        ensures
            s == SupervisorState::spec_init(),
            s.is_idle(),
            s.wf(),
    {
        SupervisorState { started: false, handle: None }
    }

    /// What `begin_start` does: if a start has already begun, report so and
    /// change nothing; otherwise claim the start by setting `started`.
    pub open spec fn spec_begin_start(self) -> (SupervisorState, StartDecision) {
        if self.started {
            (self, StartDecision::AlreadyRunning)
        } else {
            (SupervisorState { started: true, handle: self.handle }, StartDecision::Spawn)
        }
    }

    /// The atomic test-and-set that opens a start attempt. The host calls
    /// this inside the state's exclusive lock; at most one caller ever
    /// receives `Spawn` before a stop or a spawn failure resets the flag,
    /// so at most one spawn is in flight at a time.
    pub fn begin_start(&mut self) -> (d: StartDecision)
        requires
            old(self).wf(),
        ensures
            final(self).wf(),
            *final(self) == old(self).spec_begin_start().0,
            d == old(self).spec_begin_start().1,
    {
        if self.started {
            StartDecision::AlreadyRunning
        } else {
            self.started = true;
            StartDecision::Spawn
        }
    }

    /// What `finish_start` does: record the handle of a spawned child, or
    /// roll the state back to idle — exactly the initial state — when the
    /// spawn failed, so the system is never stuck believing a backend runs
    /// when none does.
    pub open spec fn spec_finish_start(self, outcome: SpawnOutcome) -> (
        SupervisorState,
        Result<Seq<char>, Seq<char>>,
    ) {
        match outcome {
            SpawnOutcome::Spawned(h) => (
                SupervisorState { started: self.started, handle: Some(h) },
                Ok(started_message()),
            ),
            SpawnOutcome::ConstructionFailed(e) => (
                SupervisorState::spec_init(),
                Err(construction_failed_message(e@)),
            ),
            SpawnOutcome::SpawnFailed(e) => (
                SupervisorState::spec_init(),
                Err(spawn_failed_message(e@)),
            ),
        }
    }

    /// Closes the start attempt that `begin_start` opened, still under the
    /// host's lock. On success the handle is stored and "Backend started"
    /// is reported; on either failure the `started` flag is rolled back —
    /// mandatory, or no later start could ever succeed — and the failure is
    /// surfaced to the caller with the host's error description.
    pub fn finish_start(&mut self, outcome: SpawnOutcome) -> (r: Result<String, String>)
        requires
            old(self).started,
            old(self).handle is None,
        ensures
            final(self).wf(),
            *final(self) == old(self).spec_finish_start(outcome).0,
            response_view(r) == old(self).spec_finish_start(outcome).1,
            r is Ok <==> outcome is Spawned,
    {
        match outcome {
            SpawnOutcome::Spawned(h) => {
                self.handle = Some(h);
                Ok("Backend started".to_owned())
            },
            SpawnOutcome::ConstructionFailed(e) => {
                self.started = false;
                Err("Failed to create sidecar command: ".to_owned().concat(e.as_str()))
            },
            SpawnOutcome::SpawnFailed(e) => {
                self.started = false;
                Err("Failed to spawn sidecar: ".to_owned().concat(e.as_str()))
            },
        }
    }

    /// What `stop` does: always return to idle, handing back the handle
    /// that was stored, if any, for the host to kill.
    pub open spec fn spec_stop(self) -> (SupervisorState, Option<ProcessHandle>) {
        (SupervisorState { started: false, handle: None }, self.handle)
    }

    /// Removes the stored handle, if present, and unconditionally resets
    /// `started`, so a later start attempt is always possible. The returned
    /// handle, if any, is the host's directive to issue a best-effort kill;
    /// the kill is fire-and-forget and its failure is only logged. Always
    /// safe to call: when no child is running this is a no-op that returns
    /// `None`.
    pub fn stop(&mut self) -> (to_kill: Option<ProcessHandle>)
        ensures
            final(self).wf(),
            final(self).is_idle(),
            *final(self) == old(self).spec_stop().0,
            to_kill == old(self).spec_stop().1,
            to_kill == old(self).handle,
    {
        let taken = self.handle.take();
        self.started = false;
        taken
    }
}

/// Law: starting is idempotent. From an idle state, the first start attempt
/// is the one that may spawn; once a start has begun, every further attempt
/// — however many callers race through the lock — is told "already running"
/// and changes nothing, so exactly one spawn can occur until a stop or a
/// spawn failure resets the state.
pub proof fn lemma_start_idempotent(s: SupervisorState)
    ensures
        !s.started ==> s.spec_begin_start() == (
            SupervisorState { started: true, handle: s.handle },
            StartDecision::Spawn,
        ),
        s.started ==> s.spec_begin_start() == (s, StartDecision::AlreadyRunning),
        s.spec_begin_start().0.spec_begin_start() == (
            s.spec_begin_start().0,
            StartDecision::AlreadyRunning,
        ),
{
}

/// The state after `n` consecutive start attempts, each one passing
/// through `begin_start` under the state's lock.
pub open spec fn spec_start_attempts(s: SupervisorState, n: nat) -> SupervisorState
    decreases n,
{
    if n == 0 {
        s
    } else {
        spec_start_attempts(s, (n - 1) as nat).spec_begin_start().0
    }
}

/// After the first start attempt the state no longer moves: every further
/// attempt leaves it exactly where the first one put it.
pub proof fn lemma_start_attempts_stabilize(s: SupervisorState, i: nat)
    requires
        i >= 1,
    ensures
        spec_start_attempts(s, i) == spec_start_attempts(s, 1),
        spec_start_attempts(s, i).started,
    decreases i,
{
    if i > 1 {
        lemma_start_attempts_stabilize(s, (i - 1) as nat);
    }
}

/// Law: for any number of start attempts issued while the state is IDLE,
/// exactly one — the first through the lock — receives the spawn decision;
/// every other caller is turned away with "already running".
pub proof fn lemma_exactly_one_spawn(s: SupervisorState, n: nat)
    requires
        !s.started,
    ensures
        forall|i: nat|
            i < n ==> ((#[trigger] spec_start_attempts(s, i)).spec_begin_start().1
                == StartDecision::Spawn <==> i == 0),
{
    assert forall|i: nat|
        i < n implies ((#[trigger] spec_start_attempts(s, i)).spec_begin_start().1
        == StartDecision::Spawn <==> i == 0) by {
        if i >= 1 {
            lemma_start_attempts_stabilize(s, i);
        }
    }
}

/// Law: a successful start answers every caller with a success-shaped
/// result. The caller that spawned is told "Backend started"; every caller
/// that lost the race is told "Backend already running"; none receives a
/// spawn error.
pub proof fn lemma_concurrent_start_success(s: SupervisorState, h: ProcessHandle)
    requires
        s.is_idle(),
    ensures
        s.spec_begin_start().1 == StartDecision::Spawn,
        s.spec_begin_start().0.spec_finish_start(SpawnOutcome::Spawned(h)).1 == Ok::<
            Seq<char>,
            Seq<char>,
        >(started_message()),
        s.spec_begin_start().0.spec_begin_start().1 == StartDecision::AlreadyRunning,
{
}

/// Law: a failed spawn rolls the state back, so the next start attempt is
/// treated exactly as if no prior call had occurred: immediately after a
/// failed start returns, the state equals the initial state — `started` is
/// observably false — and a new start attempt receives `Spawn` again.
pub proof fn lemma_rollback_on_failure(s: SupervisorState, outcome: SpawnOutcome)
    requires
        s.started,
        !(outcome is Spawned),
    ensures
        s.spec_finish_start(outcome).0 == SupervisorState::spec_init(),
        s.spec_finish_start(outcome).0.spec_begin_start().1 == StartDecision::Spawn,
        s.spec_finish_start(outcome).1 is Err,
{
}

/// Law: stopping is always safe. On an idle state, stop changes nothing,
/// directs no kill, and the state is idle after it; there is no input on
/// which stop errors.
pub proof fn lemma_stop_safe_when_idle(s: SupervisorState)
    requires
        s.is_idle(),
    ensures
        s.spec_stop() == (s, None::<ProcessHandle>),
        s.spec_stop().0.is_idle(),
{
}

/// Law: stop terminates and resets. After a successful start that stored
/// the handle `h`, a stop directs the host to send a termination request to
/// exactly that child, leaves no handle stored and `started` false, and a
/// following start attempt receives `Spawn` again — no permanent lockout.
pub proof fn lemma_stop_terminates_and_resets(s: SupervisorState, h: ProcessHandle)
    requires
        s.is_idle(),
    ensures
        ({
            let after_begin = s.spec_begin_start().0;
            let after_finish = after_begin.spec_finish_start(SpawnOutcome::Spawned(h)).0;
            after_finish.is_running() && after_finish.spec_stop() == (
                SupervisorState::spec_init(),
                Some(h),
            ) && after_finish.spec_stop().0.spec_begin_start().1 == StartDecision::Spawn
        }),
{
}

} // verus!
