//! The task variants a run can execute, and how their outcomes settle.
//!
//! A task is either a shell process or a sandboxed embedded script. Both
//! expose the same lifecycle: a pending status that settles exactly once, by
//! an event the supervising code observes — the process exited, the kill
//! request won the race, or the script finished. The asynchronous work itself
//! (spawning, waiting, interpreting) happens outside this crate; only the
//! outcome events reach the types here.

use vstd::prelude::*;

use crate::output::CommandStatus;
use crate::status::{done_of, FailReason, InvariantViolation, RunState, RunStatus};

verus! {

/// Why a submission was rejected before a run was created.
#[derive(Debug, Clone)]
pub enum SubmitError {
    /// The requested working directory does not resolve to a real directory.
    InvalidWorkingDirectory,
    /// The operating system refused to start the process; its error text.
    SpawnFailed(String),
}

/// A request to run a command line in a given working directory.
#[derive(Debug, Clone)]
pub struct ShellConfig {
    pub command: String,
    pub working_directory: String,
}

/// A shell-process task: a command line, the canonical working directory it
/// runs in, and its completion status.
#[derive(Debug)]
pub struct ShellCommand {
    command: String,
    working_directory: String,
    status: RunStatus,
}

impl ShellCommand {
    pub closed spec fn spec_command(&self) -> Seq<char> {
        self.command@
    }

    pub closed spec fn spec_working_directory(&self) -> Seq<char> {
        self.working_directory@
    }

    pub closed spec fn spec_status(&self) -> RunState {
        self.status@
    }

    /// The command line to run.
    pub fn command(&self) -> (r: &str)
        ensures
            r@ == self.spec_command(),
    {
        self.command.as_str()
    }

    /// The canonical working directory the command runs in.
    pub fn working_directory(&self) -> (r: &str)
        ensures
            r@ == self.spec_working_directory(),
    {
        self.working_directory.as_str()
    }

    /// Accept a shell request. The caller resolves the requested working
    /// directory against the file system and passes the canonical form, or
    /// `None` when it does not resolve; a request whose directory does not
    /// resolve is rejected here, before any resource is allocated.
    pub fn new(config: ShellConfig, canonical_wd: Option<String>) -> (r: Result<
        ShellCommand,
        SubmitError,
    >)
        ensures
            canonical_wd matches Some(wd) ==> (r matches Ok(c) && c.spec_command()
                == config.command@ && c.spec_working_directory() == wd@ && c.spec_status()
                == RunState::Pending),
            canonical_wd is None ==> (r matches Err(e) && e is InvalidWorkingDirectory),
    {
        match canonical_wd {
            Some(wd) => Ok(
                ShellCommand {
                    command: config.command,
                    working_directory: wd,
                    status: RunStatus::new(),
                },
            ),
            None => Err(SubmitError::InvalidWorkingDirectory),
        }
    }
}

/// A sandboxed embedded-script task: the script source and its completion
/// status. The interpreter runs on an isolated worker outside this crate,
/// with only safe standard-library capabilities and its print output
/// redirected into the run's output channel.
#[derive(Debug)]
pub struct LuaCommand {
    source: String,
    status: RunStatus,
}

impl LuaCommand {
    pub closed spec fn spec_source(&self) -> Seq<char> {
        self.source@
    }

    pub closed spec fn spec_status(&self) -> RunState {
        self.status@
    }

    /// The script source to execute.
    pub fn source(&self) -> (r: &str)
        ensures
            r@ == self.spec_source(),
    {
        self.source.as_str()
    }

    /// A pending script task for the given source.
    pub fn new(source: String) -> (r: LuaCommand)
        ensures
            r.spec_source() == source@,
            r.spec_status() == RunState::Pending,
    {
        LuaCommand { source, status: RunStatus::new() }
    }
}

/// The closed sum of task variants. The engine treats them uniformly through
/// the methods here; exhaustiveness over the two known variants is kept.
#[derive(Debug)]
pub enum Task {
    Shell(ShellCommand),
    Lua(LuaCommand),
}

/// An outcome event observed by the supervising code and applied to a task.
#[derive(Debug)]
pub enum TaskEvent {
    /// The process exited on its own, with the given exit report.
    Exited(CommandStatus),
    /// The kill request won the race against natural completion.
    Killed,
    /// The script ran to the end (`None`) or raised an interpreter error
    /// (`Some` of its text).
    ScriptEnded(Option<String>),
}

/// The state a pending task settles into under an event, or `None` when the
/// event cannot belong to that task variant — a protocol violation.
pub open spec fn settled_state(t: Task, event: TaskEvent) -> Option<RunState> {
    match (t, event) {
        (Task::Shell(_), TaskEvent::Exited(st)) => Some(
            if st.success {
                RunState::Success
            } else {
                RunState::Failure(FailReason::NonZeroExit)
            },
        ),
        (Task::Shell(_), TaskEvent::Killed) => Some(RunState::Failure(FailReason::Killed)),
        (Task::Lua(_), TaskEvent::Killed) => Some(RunState::Failure(FailReason::Killed)),
        (Task::Lua(_), TaskEvent::ScriptEnded(e)) => Some(
            match e {
                None => RunState::Success,
                Some(msg) => RunState::Failure(FailReason::ScriptError(msg)),
            },
        ),
        _ => None,
    }
}

/// The full settling step: the task's identifying fields are kept, a pending
/// task moves exactly to the state the event dictates, and a done task — or a
/// mismatched event — is rejected and left unchanged.
pub open spec fn settle_transition(before: Task, event: TaskEvent, after: Task, ok: bool) -> bool {
    &&& same_task_shape(before, after)
    &&& if done_of(before.spec_status()) {
        !ok && after.spec_status() == before.spec_status()
    } else {
        match settled_state(before, event) {
            Some(s) => ok && after.spec_status() == s,
            None => !ok && after.spec_status() == before.spec_status(),
        }
    }
}

/// Completion is permanent and decisive: a settling step never changes a
/// task that was already done, and a step that succeeds leaves the task done
/// — so its success flag is a fixed `Some` value from then on.
pub proof fn lemma_settle_monotonic(before: Task, event: TaskEvent, after: Task, ok: bool)
    requires
        settle_transition(before, event, after, ok),
    ensures
        done_of(before.spec_status()) ==> after.spec_status() == before.spec_status(),
        ok ==> done_of(after.spec_status()),
{
}

/// The variant-identifying fields of two tasks agree; settling never changes
/// them.
pub open spec fn same_task_shape(a: Task, b: Task) -> bool {
    match (a, b) {
        (Task::Shell(x), Task::Shell(y)) => x.spec_command() == y.spec_command()
            && x.spec_working_directory() == y.spec_working_directory(),
        (Task::Lua(x), Task::Lua(y)) => x.spec_source() == y.spec_source(),
        _ => false,
    }
}

impl Task {
    /// The task's recorded completion state.
    pub open spec fn spec_status(&self) -> RunState {
        match self {
            Task::Shell(c) => c.spec_status(),
            Task::Lua(c) => c.spec_status(),
        }
    }

    /// Whether the task has completed. Queryable at any time; monotonic.
    pub fn is_done(&self) -> (r: bool)
        ensures
            r == done_of(self.spec_status()),
    {
        match self {
            Task::Shell(c) => c.status.is_done(),
            Task::Lua(c) => c.status.is_done(),
        }
    }

    /// `None` while pending; `Some` of the outcome once done, permanently.
    pub fn is_successful(&self) -> (r: Option<bool>)
        ensures
            r == crate::status::success_of(self.spec_status()),
    {
        match self {
            Task::Shell(c) => c.status.is_successful(),
            Task::Lua(c) => c.status.is_successful(),
        }
    }

    /// Apply an outcome event. A pending task settles exactly as
    /// [`settled_state`] dictates; an event for the wrong variant, or any
    /// event after completion, is an invariant violation and changes nothing.
    pub fn settle(&mut self, event: TaskEvent) -> (r: Result<(), InvariantViolation>)
        ensures
            settle_transition(*old(self), event, *final(self), r is Ok),
    {
        match self {
            Task::Shell(c) => match event {
                TaskEvent::Exited(st) => {
                    if st.success {
                        c.status.success()
                    } else {
                        c.status.failure(FailReason::NonZeroExit)
                    }
                },
                TaskEvent::Killed => c.status.failure(FailReason::Killed),
                TaskEvent::ScriptEnded(_) => Err(InvariantViolation),
            },
            Task::Lua(c) => match event {
                TaskEvent::ScriptEnded(e) => match e {
                    None => c.status.success(),
                    Some(msg) => c.status.failure(FailReason::ScriptError(msg)),
                },
                TaskEvent::Killed => c.status.failure(FailReason::Killed),
                TaskEvent::Exited(_) => Err(InvariantViolation),
            },
        }
    }
}

/// The two-outcome race between natural completion and a kill request,
/// resolved with its documented tie-break: when both are ready, natural
/// completion wins, since the process has already exited.
pub fn resolve_race(exited: Option<CommandStatus>, kill_requested: bool) -> (r: Option<TaskEvent>)
    ensures
        exited matches Some(st) ==> (r matches Some(e) && e matches TaskEvent::Exited(s) && s
            == st),
        exited is None && kill_requested ==> (r matches Some(e) && e is Killed),
        exited is None && !kill_requested ==> r is None,
{
    match exited {
        Some(st) => Some(TaskEvent::Exited(st)),
        None => if kill_requested {
            Some(TaskEvent::Killed)
        } else {
            None
        },
    }
}

} // verus!
