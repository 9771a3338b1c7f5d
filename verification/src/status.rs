//! The tri-state completion flag of a run.
//!
//! A run is pending until its task reports completion exactly once, either as
//! a success or as a failure with a reason. A second completion report is an
//! engine bug; it is surfaced as an [`InvariantViolation`] and leaves the
//! recorded state untouched.

use vstd::prelude::*;

verus! {

/// Why a run ended without success.
#[derive(Debug, Clone)]
pub enum FailReason {
    /// A kill request won the race against natural completion.
    Killed,
    /// The process exited with a non-zero status code.
    NonZeroExit,
    /// The embedded script raised an interpreter error, with its text.
    ScriptError(String),
}

/// The recorded completion state of a run.
#[derive(Debug, Clone)]
pub enum RunState {
    Pending,
    Success,
    Failure(FailReason),
}

/// A completion was reported for a run that had already completed. This is a
/// programming-error fault of the engine, never a normal outcome; the caller
/// logs it and abandons only the offending run's bookkeeping.
#[derive(Debug, Clone)]
pub struct InvariantViolation;

/// Whether a state counts as done: anything but pending.
pub open spec fn done_of(s: RunState) -> bool {
    !(s is Pending)
}

/// The success flag a client sees for a state: unknown while pending, then
/// fixed by the recorded outcome.
pub open spec fn success_of(s: RunState) -> Option<bool> {
    match s {
        RunState::Pending => None,
        RunState::Success => Some(true),
        RunState::Failure(_) => Some(false),
    }
}

/// The settable-once completion flag shared by every task variant.
#[derive(Debug, Clone)]
pub struct RunStatus {
    state: RunState,
}

impl View for RunStatus {
    type V = RunState;

    closed spec fn view(&self) -> RunState {
        self.state
    }
}

impl RunStatus {
    /// A fresh, still-pending status.
    pub fn new() -> (r: RunStatus)
        ensures
            r@ == RunState::Pending,
    {
        RunStatus { state: RunState::Pending }
    }

    /// Whether completion has been recorded. Monotonic: no method brings a
    /// done status back to pending.
    pub fn is_done(&self) -> (r: bool)
        ensures
            r == done_of(self@),
    {
        !matches!(self.state, RunState::Pending)
    }

    /// `None` until done, then `Some(true)` for success and `Some(false)`
    /// for any failure, permanently.
    pub fn is_successful(&self) -> (r: Option<bool>)
        ensures
            r == success_of(self@),
    {
        match &self.state {
            RunState::Pending => None,
            RunState::Success => Some(true),
            RunState::Failure(_) => Some(false),
        }
    }

    /// Record success. Rejected, with the state left unchanged, if the run
    /// had already completed.
    pub fn success(&mut self) -> (r: Result<(), InvariantViolation>)
        ensures
            old(self)@ is Pending ==> r is Ok && final(self)@ == RunState::Success,
            !(old(self)@ is Pending) ==> r is Err && final(self)@ == old(self)@,
    {
        match &self.state {
            RunState::Pending => {
                self.state = RunState::Success;
                Ok(())
            },
            _ => Err(InvariantViolation),
        }
    }

    /// Record failure with a reason. Rejected, with the state left unchanged,
    /// if the run had already completed.
    pub fn failure(&mut self, reason: FailReason) -> (r: Result<(), InvariantViolation>)
        ensures
            old(self)@ is Pending ==> r is Ok && final(self)@ == RunState::Failure(reason),
            !(old(self)@ is Pending) ==> r is Err && final(self)@ == old(self)@,
    {
        match &self.state {
            RunState::Pending => {
                self.state = RunState::Failure(reason);
                Ok(())
            },
            _ => Err(InvariantViolation),
        }
    }
}

/// The success flag is absent exactly while the run is not done: for every
/// state, `is_successful` reports `None` if and only if `is_done` is false.
/// Together with the mutators' contracts — a done status is never altered —
/// the flag is `Some` permanently once the run completes.
pub proof fn lemma_success_known_iff_done(s: RunState)
    ensures
        (success_of(s) is None) <==> !done_of(s),
{
}

} // verus!
