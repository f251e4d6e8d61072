//! A thread-affine task executor, modeled and verified.
//!
//! The executor owns exclusive, serialized access to a resource that must
//! only ever be touched from one specific thread, while arbitrary caller
//! threads submit units of work asynchronously and collect results later
//! without blocking their own progress.
//!
//! This crate holds the verified core: the executor's lifecycle state
//! machine, its submission protocol, the worker's dispatch-loop decisions,
//! the shutdown discipline, and the error taxonomy. The host side — the OS
//! thread, the channels, and the embedded runtime the worker drives — is
//! unverified plumbing that performs each action this model decides and
//! reports each event back to it.

pub mod dispatch;
pub mod errors;
pub mod executor;

pub use dispatch::{next_action, Phase, WorkerAction};
pub use errors::{ExecutionError, InitError, ReplyError, SubmissionError};
pub use executor::{AffineExecutor, ReplyState};
