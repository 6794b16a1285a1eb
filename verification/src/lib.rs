//! Control plane for a background multi-chain sampling worker.
//!
//! The crate wraps the `nuts_rs` sampling engine behind a verified lifecycle
//! state machine: a caller builds adaptation settings and a progress-reporting
//! policy, starts a job, and then pauses, resumes, polls, waits on, aborts or
//! harvests that job while it may still be running.  The engine itself is an
//! external collaborator; every call into it goes through a small trusted
//! wrapper, and everything around those calls is verified.

pub mod engine;
pub mod error;
pub mod progress;
pub mod sampler;
pub mod settings;
