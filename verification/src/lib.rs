//! Supervision of an external network-proxy core process.
//!
//! The library is the decision-making half of a process supervisor: a
//! lifecycle state machine that picks a supervision strategy (owned child
//! process or privileged background service), commits mode transitions,
//! reacts to child output and termination events, and bounds the retry and
//! readiness-polling loops that an async driver runs around it.  All I/O,
//! spawning and sleeping happens outside the library; the library is handed
//! the observed outcomes and returns the next action.

pub mod backoff;
pub mod config;
pub mod errors;
pub mod extstr;
pub mod laws;
pub mod logs;
pub mod manager;
pub mod mode;
pub mod probe;
pub mod profiler;
pub mod textfmt;

pub use mode::RunningMode;
pub use mode::ServiceStatus;
