//! A single-instance subprocess supervisor.
//!
//! The library manages the lifecycle of one long-running backend child
//! process on behalf of a host desktop application: it starts the backend
//! at most once per session, prevents duplicate starts, classifies the
//! child's output for logging, and guarantees a termination request is
//! issued when the host shuts down.
//!
//! All process I/O (spawning, killing, reading the output stream) is the
//! host's job: the host calls into this library for every decision, performs
//! the action the library directs, and reports the outcome back. The
//! decisions themselves — the supervisor state machine, its rollback rules,
//! and the output-pump forwarding rules — live here and are verified.

pub mod lifecycle;
pub mod pump;
pub mod supervisor;
