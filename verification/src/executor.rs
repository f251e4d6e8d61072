//! The executor's lifecycle and transport, as a verified state machine.
//!
//! One `AffineExecutor` value models one executor instance: the submission
//! queue, every unit's single-use reply, the one-shot shutdown signal, and
//! where the exclusive resource handle has been acquired and released. The
//! owner-side operations (`submit`, `stop`, `shutdown`, `receive`) and the
//! worker-side operations (`complete_acquisition`, `complete_next_task`,
//! `observe_shutdown`, `finish_shutdown`) are the protocol's transitions;
//! the host threads perform the real sends, waits and joins and drive these
//! transitions with what they observed.

use vstd::prelude::*;
use vstd::pervasive::unreached;

use crate::dispatch::Phase;
use crate::errors::{ExecutionError, InitError, ReplyError, SubmissionError};

verus! {

/// One reply: the single-value, single-use transport that carries a unit
/// of work's outcome from the worker back to its submitter.
pub enum ReplyState<V> {
    /// The unit of work has not been started yet.
    Pending,
    /// The worker ran the unit to completion and wrote its outcome;
    /// written at most once, by the worker alone.
    Delivered(Result<V, ExecutionError>),
    /// The worker stopped without ever starting the unit; resolving this
    /// reply reports the channel as closed.
    Closed,
    /// The submitter has read the reply; read at most once.
    Taken,
}

/// One executor instance. Units of work are identified by submission
/// order: the unit's identifier is its index in `replies`.
pub struct AffineExecutor<V> {
    /// Where the instance stands in its lifecycle.
    pub phase: Phase,
    /// One reply per submitted unit of work, in submission order.
    pub replies: Vec<ReplyState<V>>,
    /// How many units the worker has started. Units are started strictly
    /// in submission order, and a started unit always runs to completion
    /// before the next is considered.
    pub dispatched: usize,
    /// Whether the owner has sent the one-shot shutdown signal.
    pub stop_sent: bool,
    /// The identifier of the dedicated worker thread.
    pub worker_thread: u64,
    /// The thread on which the resource handle was acquired, once it has
    /// been acquired.
    pub acquired_on: Option<u64>,
    /// The thread on which the resource handle was released, once it has
    /// been released.
    pub released_on: Option<u64>,
    /// Whether the owner has joined the worker thread.
    pub worker_joined: bool,
}

impl<V> AffineExecutor<V> {
    /// Well-formedness of one instance, established by `new` and preserved
    /// by every transition: the worker's progress never passes the tail of
    /// the queue; every started unit has its reply delivered (or already
    /// read); while the executor has not stopped, every unstarted unit's
    /// reply is still pending, the resource has not been released and the
    /// worker is not joined; once stopped, every unstarted unit's reply is
    /// closed (or read) and the release site equals the acquisition site;
    /// and the resource is only ever acquired on the worker thread.
    pub open spec fn wf(self) -> bool {
        &&& self.dispatched <= self.replies@.len()
        &&& forall|i: int| 0 <= i < self.dispatched ==>
                ((#[trigger] self.replies@[i]) is Delivered || self.replies@[i] is Taken)
        &&& !(self.phase is Stopped) ==> forall|i: int|
                self.dispatched <= i < self.replies@.len() ==> (#[trigger] self.replies@[i]) is Pending
        &&& self.phase is Stopped ==> forall|i: int|
                self.dispatched <= i < self.replies@.len() ==>
                    ((#[trigger] self.replies@[i]) is Closed || self.replies@[i] is Taken)
        &&& self.phase is Initializing ==> self.dispatched == 0 && self.acquired_on is None
        &&& (self.phase is Running || self.phase is ShuttingDown) ==>
                self.acquired_on == Some(self.worker_thread)
        &&& !(self.phase is Stopped) ==> self.released_on is None && !self.worker_joined
        &&& self.phase is ShuttingDown ==> self.stop_sent
        &&& self.phase is Stopped ==> self.released_on == self.acquired_on
        &&& self.acquired_on matches Some(t) ==> t == self.worker_thread
    }

    /// The number of submitted units the worker has not started yet.
    pub open spec fn queued(self) -> int {
        self.replies@.len() - self.dispatched
    }

    /// The executor still accepts submissions: shutdown has not begun and
    /// the worker has not stopped.
    pub open spec fn accepting(self) -> bool {
        (self.phase is Initializing || self.phase is Running) && !self.stop_sent
    }

    /// The submission transition: one unit of work was appended at the
    /// tail of the queue with a fresh pending reply, and nothing else
    /// changed — in particular, no unit was started or completed.
    pub open spec fn task_submitted(pre: Self, post: Self, id: int) -> bool {
        &&& pre.accepting()
        &&& id == pre.replies@.len()
        &&& post.replies@ == pre.replies@.push(ReplyState::<V>::Pending)
        &&& post.dispatched == pre.dispatched
        &&& post.phase == pre.phase
        &&& post.stop_sent == pre.stop_sent
        &&& post.worker_thread == pre.worker_thread
        &&& post.acquired_on == pre.acquired_on
        &&& post.released_on == pre.released_on
        &&& post.worker_joined == pre.worker_joined
    }

    /// The completion transition: the earliest unstarted unit ran to
    /// completion on the worker and its outcome — a value or an execution
    /// error — was delivered on that unit's own reply; nothing else
    /// changed and the dispatch loop keeps running.
    pub open spec fn task_completed(pre: Self, post: Self, outcome: Result<V, ExecutionError>) -> bool {
        &&& pre.phase is Running
        &&& pre.dispatched < pre.replies@.len()
        &&& post.phase is Running
        &&& post.replies@ == pre.replies@.update(pre.dispatched as int, ReplyState::Delivered(outcome))
        &&& post.dispatched == pre.dispatched + 1
        &&& post.stop_sent == pre.stop_sent
        &&& post.worker_thread == pre.worker_thread
        &&& post.acquired_on == pre.acquired_on
        &&& post.released_on == pre.released_on
        &&& post.worker_joined == pre.worker_joined
    }

    /// Constructs the model of a fresh executor whose dedicated worker
    /// thread has just been spawned: nothing submitted, nothing started,
    /// no signal sent, the resource not yet acquired.
    pub fn new(worker_thread: u64) -> (e: Self)
        ensures
            e.wf(),
            e.phase is Initializing,
            e.replies@.len() == 0,
            e.dispatched == 0,
            !e.stop_sent,
            e.worker_thread == worker_thread,
            e.acquired_on is None,
            e.released_on is None,
            !e.worker_joined,
    {
        AffineExecutor {
            phase: Phase::Initializing,
            replies: Vec::new(),
            dispatched: 0,
            stop_sent: false,
            worker_thread,
            acquired_on: None,
            released_on: None,
            worker_joined: false,
        }
    }

    /// Records the outcome of the one-time resource acquisition, performed
    /// on the worker thread. On success the dispatch loop starts and the
    /// acquisition site is the worker thread. On failure construction
    /// fails: no loop ever starts, the resource is never held, and every
    /// already-queued reply is closed rather than silently dropped.
    pub fn complete_acquisition(&mut self, acquired: bool) -> (r: Result<(), InitError>)
        requires
            old(self).wf(),
            old(self).phase is Initializing,
        ensures
            final(self).wf(),
            r is Ok <==> acquired,
            final(self).replies@.len() == old(self).replies@.len(),
            final(self).dispatched == old(self).dispatched,
            final(self).stop_sent == old(self).stop_sent,
            final(self).worker_thread == old(self).worker_thread,
            final(self).worker_joined == old(self).worker_joined,
            final(self).released_on is None,
            acquired ==> final(self).phase is Running
                && final(self).acquired_on == Some(old(self).worker_thread)
                && final(self).replies@ == old(self).replies@,
            !acquired ==> final(self).phase is Stopped
                && final(self).acquired_on is None
                && forall|i: int| 0 <= i < old(self).replies@.len() ==>
                       (#[trigger] final(self).replies@[i]) is Closed,
    {
        if acquired {
            self.phase = Phase::Running;
            self.acquired_on = Some(self.worker_thread);
            Ok(())
        } else {
            self.phase = Phase::Stopped;
            self.close_unstarted();
            Err(InitError)
        }
    }

    /// Submits a unit of work. Submission is non-blocking: it appends the
    /// unit at the tail of the queue and returns its reply identifier at
    /// once, without starting, waiting for, or completing any unit, so its
    /// cost does not depend on any unit's execution time. Once shutdown
    /// has begun — the stop signal was sent or the worker has stopped —
    /// submission instead fails fast and the executor is unchanged.
    pub fn submit(&mut self) -> (r: Result<usize, SubmissionError>)
        requires
            old(self).wf(),
        ensures
            final(self).wf(),
            r is Ok <==> old(self).accepting(),
            r matches Ok(id) ==> id == old(self).replies@.len()
                && Self::task_submitted(*old(self), *final(self), id as int),
            r is Err ==> *final(self) == *old(self),
    {
        let can_accept = (self.phase == Phase::Initializing || self.phase == Phase::Running)
            && !self.stop_sent;
        if can_accept {
            let id = self.replies.len();
            self.replies.push(ReplyState::Pending);
            Ok(id)
        } else {
            Err(SubmissionError)
        }
    }

    /// Sends the one-shot shutdown signal. The signal travels on its own
    /// path, disjoint from the work queue, so the worker observes it even
    /// when the queue is empty. Only the owning teardown path calls this,
    /// at most once per instance; sending it twice is a usage error.
    pub fn stop(&mut self)
        requires
            old(self).wf(),
            !old(self).stop_sent,
        ensures
            final(self).wf(),
            final(self).stop_sent,
            final(self).phase == old(self).phase,
            final(self).replies@ == old(self).replies@,
            final(self).dispatched == old(self).dispatched,
            final(self).worker_thread == old(self).worker_thread,
            final(self).acquired_on == old(self).acquired_on,
            final(self).released_on == old(self).released_on,
            final(self).worker_joined == old(self).worker_joined,
    {
        self.stop_sent = true;
    }

    /// The worker observes the stop signal during its check cycle — before
    /// starting any new unit of work — and begins shutting down. Work
    /// already delivered is untouched; no new unit will ever start.
    pub fn observe_shutdown(&mut self)
        requires
            old(self).wf(),
            old(self).phase is Running,
            old(self).stop_sent,
        ensures
            final(self).wf(),
            final(self).phase is ShuttingDown,
            final(self).replies@ == old(self).replies@,
            final(self).dispatched == old(self).dispatched,
            final(self).stop_sent == old(self).stop_sent,
            final(self).worker_thread == old(self).worker_thread,
            final(self).acquired_on == old(self).acquired_on,
            final(self).released_on == old(self).released_on,
            final(self).worker_joined == old(self).worker_joined,
    {
        self.phase = Phase::ShuttingDown;
    }

    /// Runs the earliest unstarted unit of work to completion on the
    /// worker thread and delivers its outcome on that unit's own reply.
    /// Returns the identifier of the unit that ran. A failing unit stays
    /// local: every other reply is exactly as it was, and the dispatch
    /// loop keeps running rather than being killed by the failure.
    pub fn complete_next_task(&mut self, outcome: Result<V, ExecutionError>) -> (id: usize)
        requires
            old(self).wf(),
            old(self).phase is Running,
            old(self).dispatched < old(self).replies@.len(),
        ensures
            final(self).wf(),
            id == old(self).dispatched,
            Self::task_completed(*old(self), *final(self), outcome),
    {
        let id = self.dispatched;
        // `id` is below the vector's length, a `usize`, so `id + 1` fits.
        let _n = self.replies.len();
        let slot = &mut self.replies[id];
        *slot = ReplyState::Delivered(outcome);
        self.dispatched = id + 1;
        id
    }

    /// Ends the shutdown on the worker thread: the resource handle is
    /// released on the very thread that acquired it, every unit of work
    /// that never started has its reply closed, and the worker's loop
    /// exits. In-flight work does not exist here: a started unit was
    /// already run to completion before the signal was observed.
    pub fn finish_shutdown(&mut self)
        requires
            old(self).wf(),
            old(self).phase is ShuttingDown,
        ensures
            final(self).wf(),
            final(self).phase is Stopped,
            final(self).acquired_on == old(self).acquired_on,
            final(self).released_on == old(self).acquired_on,
            final(self).released_on == Some(old(self).worker_thread),
            final(self).replies@.len() == old(self).replies@.len(),
            forall|j: int| 0 <= j < old(self).dispatched ==>
                final(self).replies@[j] == old(self).replies@[j],
            forall|j: int| old(self).dispatched <= j < old(self).replies@.len() ==>
                (#[trigger] final(self).replies@[j]) is Closed,
            final(self).dispatched == old(self).dispatched,
            final(self).stop_sent == old(self).stop_sent,
            final(self).worker_thread == old(self).worker_thread,
            final(self).worker_joined == old(self).worker_joined,
    {
        self.phase = Phase::Stopped;
        self.released_on = self.acquired_on;
        self.close_unstarted();
    }

    /// The owner joins the worker thread; joining returns only once the
    /// worker's loop has exited and the resource has been released.
    pub fn join_worker(&mut self)
        requires
            old(self).wf(),
            old(self).phase is Stopped,
        ensures
            final(self).wf(),
            final(self).worker_joined,
            final(self).phase == old(self).phase,
            final(self).replies@ == old(self).replies@,
            final(self).dispatched == old(self).dispatched,
            final(self).stop_sent == old(self).stop_sent,
            final(self).worker_thread == old(self).worker_thread,
            final(self).acquired_on == old(self).acquired_on,
            final(self).released_on == old(self).released_on,
    {
        self.worker_joined = true;
    }

    /// The owner's scoped teardown, run when the owning value's lifetime
    /// ends: send the stop signal, let the worker observe it, release the
    /// resource on the worker thread, and join the thread. It asks nothing
    /// of the queue: with pending units or none, the worker is fully
    /// joined before teardown returns, no reply is left pending, and the
    /// resource was released on the same thread that acquired it.
    pub fn shutdown(&mut self)
        requires
            old(self).wf(),
            old(self).phase is Running,
            !old(self).stop_sent,
        ensures
            final(self).wf(),
            final(self).phase is Stopped,
            final(self).worker_joined,
            final(self).stop_sent,
            final(self).acquired_on == Some(old(self).worker_thread),
            final(self).released_on == Some(old(self).worker_thread),
            final(self).replies@.len() == old(self).replies@.len(),
            final(self).dispatched == old(self).dispatched,
            forall|j: int| 0 <= j < old(self).dispatched ==>
                final(self).replies@[j] == old(self).replies@[j],
            forall|j: int| old(self).dispatched <= j < old(self).replies@.len() ==>
                (#[trigger] final(self).replies@[j]) is Closed,
            forall|j: int| 0 <= j < final(self).replies@.len() ==>
                !((#[trigger] final(self).replies@[j]) is Pending),
    {
        self.stop();
        self.observe_shutdown();
        self.finish_shutdown();
        self.join_worker();
    }

    /// Resolves a reply once the worker has delivered its outcome or
    /// stopped; the host side blocks the submitting caller until then. The
    /// reply is read at most once. A successful unit yields its value; a
    /// unit that failed internally yields its own execution error; a unit
    /// whose worker stopped before starting it yields a closed-channel
    /// error — so a caller can always tell its unit's failure from the
    /// executor being gone.
    pub fn receive(&mut self, id: usize) -> (r: Result<V, ReplyError>)
        requires
            old(self).wf(),
            id < old(self).replies@.len(),
            old(self).replies@[id as int] is Delivered || old(self).replies@[id as int] is Closed,
        ensures
            final(self).wf(),
            final(self).replies@ == old(self).replies@.update(id as int, ReplyState::<V>::Taken),
            final(self).phase == old(self).phase,
            final(self).dispatched == old(self).dispatched,
            final(self).stop_sent == old(self).stop_sent,
            final(self).worker_thread == old(self).worker_thread,
            final(self).acquired_on == old(self).acquired_on,
            final(self).released_on == old(self).released_on,
            final(self).worker_joined == old(self).worker_joined,
            old(self).replies@[id as int] matches ReplyState::Delivered(out) ==> match out {
                Ok(v) => r == Ok::<V, ReplyError>(v),
                Err(e) => r == Err::<V, ReplyError>(ReplyError::Execution(e)),
            },
            old(self).replies@[id as int] is Closed ==>
                r == Err::<V, ReplyError>(ReplyError::ChannelClosed),
    {
        let mut slot = ReplyState::Taken;
        let slot_ref = &mut self.replies[id];
        core::mem::swap(&mut slot, slot_ref);
        match slot {
            ReplyState::Delivered(Ok(v)) => Ok(v),
            ReplyState::Delivered(Err(e)) => Err(ReplyError::Execution(e)),
            ReplyState::Closed => Err(ReplyError::ChannelClosed),
            ReplyState::Pending => unreached(),
            ReplyState::Taken => unreached(),
        }
    }

    /// Whether a queued unit of work is waiting to be started; the worker
    /// loop feeds this into its dispatch decision.
    pub fn has_queued_work(&self) -> (b: bool)
        ensures
            b == (self.queued() > 0),
    {
        self.dispatched < self.replies.len()
    }

    /// Closes the reply of every unit of work that was never started.
    /// Used only when the worker stops, so that no submission is ever
    /// silently dropped.
    fn close_unstarted(&mut self)
        requires
            old(self).dispatched <= old(self).replies@.len(),
        ensures
            final(self).replies@.len() == old(self).replies@.len(),
            forall|j: int| 0 <= j < old(self).dispatched ==>
                final(self).replies@[j] == old(self).replies@[j],
            forall|j: int| old(self).dispatched <= j < old(self).replies@.len() ==>
                (#[trigger] final(self).replies@[j]) is Closed,
            final(self).phase == old(self).phase,
            final(self).dispatched == old(self).dispatched,
            final(self).stop_sent == old(self).stop_sent,
            final(self).worker_thread == old(self).worker_thread,
            final(self).acquired_on == old(self).acquired_on,
            final(self).released_on == old(self).released_on,
            final(self).worker_joined == old(self).worker_joined,
    {
        let n = self.replies.len();
        let mut i = self.dispatched;
        while i < n
            invariant
                old(self).dispatched <= i <= n,
                n == self.replies@.len(),
                n == old(self).replies@.len(),
                self.phase == old(self).phase,
                self.dispatched == old(self).dispatched,
                self.stop_sent == old(self).stop_sent,
                self.worker_thread == old(self).worker_thread,
                self.acquired_on == old(self).acquired_on,
                self.released_on == old(self).released_on,
                self.worker_joined == old(self).worker_joined,
                forall|j: int| 0 <= j < old(self).dispatched ==>
                    self.replies@[j] == old(self).replies@[j],
                forall|j: int| old(self).dispatched <= j < i ==>
                    (#[trigger] self.replies@[j]) is Closed,
                forall|j: int| i <= j < n ==> self.replies@[j] == old(self).replies@[j],
            decreases n - i,
        {
            let slot = &mut self.replies[i];
            *slot = ReplyState::Closed;
            i += 1;
        }
    }

    /// Non-blocking submission, as a law: a submission appends one pending
    /// reply at the tail and does nothing else. The worker's progress is
    /// untouched and every reply already present is exactly as it was, so
    /// no unit of work is started, awaited, or completed by submitting —
    /// whatever any unit's execution takes.
    pub proof fn lemma_submission_does_no_work(pre: Self, post: Self, id: int)
        requires
            Self::task_submitted(pre, post, id),
        ensures
            post.dispatched == pre.dispatched,
            id == pre.replies@.len(),
            forall|i: int| 0 <= i < pre.replies@.len() ==> post.replies@[i] == pre.replies@[i],
            post.replies@[id] is Pending,
    {
    }

    /// Serialization, as a law: units of work submitted in order are
    /// started in that order, one at a time. When the worker begins a
    /// unit, that unit is the earliest one still queued, and every unit
    /// submitted earlier has already had its reply delivered (or read) —
    /// so an earlier unit's result is observable no later than any later
    /// unit begins.
    pub proof fn lemma_serialization(pre: Self, post: Self, outcome: Result<V, ExecutionError>, earlier: int)
        requires
            pre.wf(),
            Self::task_completed(pre, post, outcome),
            0 <= earlier < pre.dispatched,
        ensures
            pre.replies@[earlier] is Delivered || pre.replies@[earlier] is Taken,
            forall|i: int| pre.dispatched < i < pre.replies@.len() ==>
                (#[trigger] pre.replies@[i]) is Pending,
    {
    }

    /// Exclusive resource confinement, as a law: over one executor's whole
    /// lifetime, the resource handle is only ever acquired on the worker
    /// thread, and its release — once it has happened — happened on that
    /// same thread.
    pub proof fn lemma_resource_confinement(e: Self)
        requires
            e.wf(),
        ensures
            e.acquired_on matches Some(t) ==> t == e.worker_thread,
            e.released_on is Some ==> e.released_on == e.acquired_on,
    {
    }

    /// Error isolation, as a law: when a unit of work fails internally and
    /// an independent unit runs right after it on the same executor, the
    /// failure sits on the failing unit's own reply alone, the later unit
    /// still completes successfully, and the executor is still running.
    pub proof fn lemma_error_isolation(e0: Self, e1: Self, e2: Self, v: V)
        requires
            e0.wf(),
            Self::task_completed(e0, e1, Err(ExecutionError)),
            Self::task_completed(e1, e2, Ok(v)),
        ensures
            e2.replies@.len() == e0.replies@.len(),
            e2.replies@[e0.dispatched as int] == ReplyState::<V>::Delivered(Err(ExecutionError)),
            e2.replies@[e1.dispatched as int] == ReplyState::<V>::Delivered(Ok(v)),
            e2.phase is Running,
    {
    }
}

} // verus!
