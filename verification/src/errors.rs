//! The executor's error taxonomy.
//!
//! Errors local to one unit of work stay local to that unit's reply; only
//! initialization can be fatal to the executor as a whole. A caller can
//! always tell "my specific unit of work failed" (`ReplyError::Execution`)
//! from "the whole executor is gone" (`ReplyError::ChannelClosed`).

use vstd::prelude::*;

verus! {

/// Resource acquisition failed while the executor was initializing.
/// Fatal to construction: no executor is returned and no dispatch loop
/// ever starts.
#[derive(Clone, Copy, PartialEq, Eq, Structural, Debug)]
pub struct InitError;

/// A unit of work was submitted after shutdown had begun: a caller-side
/// programming error, rejected fast rather than silently dropping work.
#[derive(Clone, Copy, PartialEq, Eq, Structural, Debug)]
pub struct SubmissionError;

/// A unit of work failed internally while running on the worker thread.
/// The failure is delivered on that unit's own reply and never kills the
/// dispatch loop.
#[derive(Clone, Copy, PartialEq, Eq, Structural, Debug)]
pub struct ExecutionError;

/// Why resolving a reply yielded no result value.
#[derive(Clone, Copy, PartialEq, Eq, Structural, Debug)]
pub enum ReplyError {
    /// The unit of work itself failed; the executor keeps running and
    /// other units are unaffected.
    Execution(ExecutionError),
    /// The worker stopped without producing a result for this reply;
    /// terminal for this reply only.
    ChannelClosed,
}

} // verus!
