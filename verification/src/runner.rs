//! One live run: a task, its output channel, and its kill signal.
//!
//! A runner is created when a run is accepted. It owns the task's completion
//! status, the receiving half of the shared output channel, and the sending
//! half of the one-shot kill signal. Polling drains buffered output in
//! bounded batches together with the current completion flags; killing fires
//! the signal at most once and never touches the recorded status.

use vstd::prelude::*;

use crate::channel::{send_kill_signal, try_recv_output};
use crate::output::{PollOutput, RunnerOutput, RunnerOutputExt, BATCH_CAP};
use crate::status::{done_of, success_of, RunState, InvariantViolation};
use crate::task::{settle_transition, Task, TaskEvent};

verus! {

/// Relies on `uuid::Uuid::new_v4`: a freshly generated random 128-bit
/// identifier. Nothing is assumed of the value.
#[verifier::external_body]
fn fresh_id_value() -> u128 {
    uuid::Uuid::new_v4().as_u128()
}

/// The opaque identity of one run: a random 128-bit value assigned when the
/// runner is created, used as registry key and poll handle.
#[derive(Debug, Clone, Copy, PartialEq, Eq, Structural)]
pub struct RunId {
    value: u128,
}

impl RunId {
    pub closed spec fn spec_value(&self) -> u128 {
        self.value
    }

    /// A freshly generated random identity.
    pub fn fresh() -> RunId {
        RunId { value: fresh_id_value() }
    }

    /// The raw 128-bit value, for display or marshalling by the caller.
    pub fn value(&self) -> (r: u128)
        ensures
            r == self.spec_value(),
    {
        self.value
    }

    /// Rebuild an identity from its raw value.
    pub fn from_value(value: u128) -> (r: RunId)
        ensures
            r.spec_value() == value,
    {
        RunId { value }
    }
}

/// One live run. See the module description.
#[derive(Debug)]
pub struct Runner {
    id: RunId,
    task: Task,
    output: tokio::sync::mpsc::Receiver<RunnerOutput>,
    kill: Option<tokio::sync::oneshot::Sender<()>>,
    kill_requested: bool,
}

impl Runner {
    pub closed spec fn spec_id(&self) -> RunId {
        self.id
    }

    pub closed spec fn spec_task(&self) -> Task {
        self.task
    }

    /// Whether a kill request has been issued against this run.
    pub closed spec fn spec_kill_requested(&self) -> bool {
        self.kill_requested
    }

    /// The run's recorded completion state.
    pub open spec fn spec_status(&self) -> RunState {
        self.spec_task().spec_status()
    }

    /// Assemble a runner for an accepted task. The caller creates the two
    /// channels, hands the sending half of the output channel to the task's
    /// forwarding loops and the receiving half of the kill channel to its
    /// supervising logic, and passes the remaining halves here. A fresh
    /// random identity is assigned.
    pub fn new(
        task: Task,
        output: tokio::sync::mpsc::Receiver<RunnerOutput>,
        kill: tokio::sync::oneshot::Sender<()>,
    ) -> (r: Runner)
        ensures
            r.spec_task() == task,
            !r.spec_kill_requested(),
    {
        Runner { id: RunId::fresh(), task, output, kill: Some(kill), kill_requested: false }
    }

    /// The run's identity.
    pub fn id(&self) -> (r: RunId)
        ensures
            r == self.spec_id(),
    {
        self.id
    }

    /// Whether the run has completed.
    pub fn is_done(&self) -> (r: bool)
        ensures
            r == done_of(self.spec_status()),
    {
        self.task.is_done()
    }

    /// `None` while pending; `Some` of the outcome once done, permanently.
    pub fn is_successful(&self) -> (r: Option<bool>)
        ensures
            r == success_of(self.spec_status()),
    {
        self.task.is_successful()
    }

    /// Whether a kill request has been issued against this run.
    pub fn kill_requested(&self) -> (r: bool)
        ensures
            r == self.spec_kill_requested(),
    {
        self.kill_requested
    }

    /// Request early termination. Safe to call at any time and any number of
    /// times: the one-shot signal fires on the first call only, and the
    /// recorded status is never altered — killing an already completed run
    /// is a no-op on its outcome.
    pub fn kill(&mut self)
        ensures
            final(self).spec_id() == old(self).spec_id(),
            final(self).spec_task() == old(self).spec_task(),
            final(self).spec_status() == old(self).spec_status(),
            final(self).spec_kill_requested(),
    {
        match self.kill.take() {
            Some(tx) => send_kill_signal(tx),
            None => (),
        }
        self.kill_requested = true;
    }

    /// Apply an outcome event to the run's task; see [`Task::settle`].
    pub fn settle(&mut self, event: TaskEvent) -> (r: Result<(), InvariantViolation>)
        ensures
            final(self).spec_id() == old(self).spec_id(),
            final(self).spec_kill_requested() == old(self).spec_kill_requested(),
            settle_transition(old(self).spec_task(), event, final(self).spec_task(), r is Ok),
    {
        self.task.settle(event)
    }

    /// Drain buffered output without blocking: up to [`BATCH_CAP`] items, in
    /// arrival order, decoded to text, together with the current completion
    /// flags. Returns at once with an empty batch when nothing is buffered.
    pub fn poll(&mut self) -> (r: PollOutput)
        ensures
            final(self).spec_id() == old(self).spec_id(),
            final(self).spec_task() == old(self).spec_task(),
            final(self).spec_kill_requested() == old(self).spec_kill_requested(),
            r.data@.len() <= BATCH_CAP as nat,
            r.end == done_of(old(self).spec_status()),
            r.success == success_of(old(self).spec_status()),
    {
        let mut data: Vec<RunnerOutputExt> = Vec::new();
        while data.len() < BATCH_CAP
            invariant
                data@.len() <= BATCH_CAP as nat,
                self.id == old(self).id,
                self.task == old(self).task,
                self.kill == old(self).kill,
                self.kill_requested == old(self).kill_requested,
            decreases BATCH_CAP - data@.len(),
        {
            match try_recv_output(&mut self.output) {
                Some(item) => data.push(RunnerOutputExt::from_output(item)),
                None => break,
            }
        }
        PollOutput { end: self.task.is_done(), success: self.task.is_successful(), data }
    }
}

} // verus!
