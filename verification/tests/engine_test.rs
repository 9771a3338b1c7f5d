use webb_runner::commands::{CellCommand, CellCommandKind};
use webb_runner::output::{CommandStatus, RunnerOutput, RunnerOutputExt, BATCH_CAP};
use webb_runner::runner::RunId;
use webb_runner::registry::{RunKey, RunRegistry};
use webb_runner::runner::Runner;
use webb_runner::task::{LuaCommand, ShellCommand, ShellConfig, Task, TaskEvent};

/// A runner for a shell task, plus the sending half of its output channel
/// and the receiving half of its kill signal, as the supervising code would
/// hold them.
fn shell_runner(
    command: &str,
) -> (Runner, tokio::sync::mpsc::Sender<RunnerOutput>, tokio::sync::oneshot::Receiver<()>) {
    let config = ShellConfig {
        command: command.to_string(),
        working_directory: "/tmp".to_string(),
    };
    let task = Task::Shell(ShellCommand::new(config, Some("/tmp".to_string())).unwrap());
    let (tx, rx) = tokio::sync::mpsc::channel(128);
    let (kill_tx, kill_rx) = tokio::sync::oneshot::channel();
    (Runner::new(task, rx, kill_tx), tx, kill_rx)
}

#[test]
fn invalid_working_directory_is_rejected() {
    let config = ShellConfig {
        command: "echo hi".to_string(),
        working_directory: "/no/such/dir".to_string(),
    };
    let rejected = ShellCommand::new(config, None);
    assert!(matches!(
        rejected,
        Err(webb_runner::task::SubmitError::InvalidWorkingDirectory)
    ));
}

#[test]
fn fresh_runner_is_pending() {
    let (runner, _tx, _kill_rx) = shell_runner("echo hi");
    assert!(!runner.is_done());
    assert_eq!(runner.is_successful(), None);
    assert!(!runner.kill_requested());
}

#[test]
fn poll_caps_the_batch() {
    let (mut runner, tx, _kill_rx) = shell_runner("yes");
    for i in 0..30u8 {
        tx.try_send(RunnerOutput::Stdout(vec![i])).unwrap();
    }

    let first = runner.poll();
    assert_eq!(first.data.len(), 25);
    assert_eq!(BATCH_CAP, 25);
    assert!(!first.end);
    assert_eq!(first.success, None);

    let second = runner.poll();
    assert_eq!(second.data.len(), 5);

    let third = runner.poll();
    assert!(third.data.is_empty());
}

#[test]
fn poll_keeps_arrival_order_and_decodes_text() {
    let (mut runner, tx, _kill_rx) = shell_runner("echo hi");
    tx.try_send(RunnerOutput::Stdout(b"hi\n".to_vec())).unwrap();
    tx.try_send(RunnerOutput::Stderr(b"oops".to_vec())).unwrap();
    tx.try_send(RunnerOutput::Stdout(vec![0xff, 0xfe])).unwrap();

    let out = runner.poll();
    assert_eq!(out.data.len(), 3);
    match &out.data[0] {
        RunnerOutputExt::Stdout(s) => assert_eq!(s, "hi\n"),
        other => panic!("expected stdout text, got {:?}", other),
    }
    match &out.data[1] {
        RunnerOutputExt::Stderr(s) => assert_eq!(s, "oops"),
        other => panic!("expected stderr text, got {:?}", other),
    }
    match &out.data[2] {
        // Invalid UTF-8 decodes to replacement characters rather than being
        // dropped.
        RunnerOutputExt::Stdout(s) => assert_eq!(s, "\u{fffd}\u{fffd}"),
        other => panic!("expected stdout text, got {:?}", other),
    }
}

#[test]
fn settle_exit_zero_is_success() {
    let (mut runner, _tx, _kill_rx) = shell_runner("true");
    let verdict = runner.settle(TaskEvent::Exited(CommandStatus {
        success: true,
        exit_code: Some(0),
    }));
    assert!(verdict.is_ok());
    assert!(runner.is_done());
    assert_eq!(runner.is_successful(), Some(true));
}

#[test]
fn settle_nonzero_exit_is_failure() {
    let (mut runner, _tx, _kill_rx) = shell_runner("exit 3");
    let verdict = runner.settle(TaskEvent::Exited(CommandStatus {
        success: false,
        exit_code: Some(3),
    }));
    assert!(verdict.is_ok());
    assert_eq!(runner.is_successful(), Some(false));
}

#[test]
fn kill_fires_the_signal_once() {
    let (mut runner, _tx, mut kill_rx) = shell_runner("sleep 60");
    runner.kill();
    assert!(runner.kill_requested());
    assert!(matches!(kill_rx.try_recv(), Ok(())));

    // A second kill is a no-op: the one-shot signal is spent, and nothing
    // else changes.
    runner.kill();
    assert!(runner.kill_requested());
    assert!(!runner.is_done());
}

#[test]
fn kill_after_completion_keeps_the_status() {
    let (mut runner, _tx, _kill_rx) = shell_runner("true");
    runner
        .settle(TaskEvent::Exited(CommandStatus { success: true, exit_code: Some(0) }))
        .unwrap();
    assert_eq!(runner.is_successful(), Some(true));

    runner.kill();
    assert!(runner.is_done());
    assert_eq!(runner.is_successful(), Some(true));

    let out = runner.poll();
    assert!(out.end);
    assert_eq!(out.success, Some(true));
}

#[test]
fn script_error_is_failure_with_output_kept() {
    let (tx, rx) = tokio::sync::mpsc::channel(128);
    let (kill_tx, _kill_rx) = tokio::sync::oneshot::channel();
    let task = Task::Lua(LuaCommand::new("print('a') error('boom')".to_string()));
    let mut runner = Runner::new(task, rx, kill_tx);

    tx.try_send(RunnerOutput::Stdout(b"a".to_vec())).unwrap();
    runner.settle(TaskEvent::ScriptEnded(Some("boom".to_string()))).unwrap();

    let out = runner.poll();
    assert_eq!(out.data.len(), 1);
    match &out.data[0] {
        RunnerOutputExt::Stdout(s) => assert_eq!(s, "a"),
        other => panic!("expected stdout text, got {:?}", other),
    }
    assert!(out.end);
    assert_eq!(out.success, Some(false));
}

#[test]
fn wrong_event_kind_is_rejected() {
    let (mut runner, _tx, _kill_rx) = shell_runner("true");
    let verdict = runner.settle(TaskEvent::ScriptEnded(None));
    assert!(verdict.is_err());
    assert!(!runner.is_done());
}

#[test]
fn register_kills_the_previous_occupant() {
    let mut registry = RunRegistry::new();
    let key = RunKey::Slot(7);

    let (first, _tx1, mut kill_rx1) = shell_runner("sleep 60");
    assert!(registry.register(key, first).is_none());

    let (second, _tx2, _kill_rx2) = shell_runner("echo hi");
    let prev = registry.register(key, second).expect("the slot was occupied");

    // The previous occupant received its kill request before `register`
    // returned, and its recorded status was not touched.
    assert!(prev.kill_requested());
    assert!(matches!(kill_rx1.try_recv(), Ok(())));
    assert!(!prev.is_done());
    assert_eq!(prev.is_successful(), None);
}

#[test]
fn registry_addresses_runs_by_key() {
    let mut registry = RunRegistry::new();
    let (first, tx1, _k1) = shell_runner("echo one");
    let (second, _tx2, _k2) = shell_runner("echo two");
    let id1 = first.id();
    let id2 = second.id();
    registry.register(RunKey::Id(id1), first);
    registry.register(RunKey::Id(id2), second);

    assert!(registry.contains(RunKey::Id(id1)));
    assert!(registry.contains(RunKey::Id(id2)));
    assert!(!registry.contains(RunKey::Slot(0)));
    assert!(registry.poll_run(RunKey::Slot(0)).is_none());

    tx1.try_send(RunnerOutput::Stdout(b"one\n".to_vec())).unwrap();
    let out = registry.poll_run(RunKey::Id(id1)).unwrap();
    assert_eq!(out.data.len(), 1);

    // The other run saw nothing of it.
    let other = registry.poll_run(RunKey::Id(id2)).unwrap();
    assert!(other.data.is_empty());
}

#[test]
fn kill_run_after_completion_is_a_no_op_on_status() {
    let mut registry = RunRegistry::new();
    let (runner, _tx, _k) = shell_runner("true");
    let key = RunKey::Slot(1);
    registry.register(key, runner);

    let verdict = registry
        .settle_run(key, TaskEvent::Exited(CommandStatus { success: true, exit_code: Some(0) }))
        .expect("the run exists");
    assert!(verdict.is_ok());

    assert!(registry.kill_run(key));
    let out = registry.poll_run(key).unwrap();
    assert!(out.end);
    assert_eq!(out.success, Some(true));

    assert!(!registry.kill_run(RunKey::Slot(2)));
}

#[test]
fn settle_run_rejects_a_second_completion() {
    let mut registry = RunRegistry::new();
    let (runner, _tx, _k) = shell_runner("exit 3");
    let key = RunKey::Slot(4);
    registry.register(key, runner);

    let first = registry
        .settle_run(key, TaskEvent::Exited(CommandStatus { success: false, exit_code: Some(3) }))
        .unwrap();
    assert!(first.is_ok());

    let second = registry
        .settle_run(key, TaskEvent::Killed)
        .unwrap();
    assert!(second.is_err());

    let out = registry.poll_run(key).unwrap();
    assert_eq!(out.success, Some(false));
}

#[test]
fn command_descriptions_validate() {
    let lua = CellCommand {
        kind: CellCommandKind::Lua,
        source: "print('x')".to_string(),
    };
    assert_eq!(lua.get_name(), "Lua");
    let task = lua.create_runnable(None).unwrap();
    assert!(matches!(task, Task::Lua(_)));

    let shell = CellCommand {
        kind: CellCommandKind::Shell { working_directory: "/no/such/dir".to_string() },
        source: "echo hi".to_string(),
    };
    assert_eq!(shell.get_name(), "Shell");
    assert!(matches!(
        shell.create_runnable(None),
        Err(webb_runner::task::SubmitError::InvalidWorkingDirectory)
    ));

    let shell = CellCommand {
        kind: CellCommandKind::Shell { working_directory: ".".to_string() },
        source: "echo hi".to_string(),
    };
    match shell.create_runnable(Some("/tmp".to_string())).unwrap() {
        Task::Shell(c) => {
            assert_eq!(c.command(), "echo hi");
            assert_eq!(c.working_directory(), "/tmp");
        }
        other => panic!("expected a shell task, got {:?}", other),
    }
}

#[test]
fn run_id_round_trips_through_its_raw_value() {
    let id = RunId::fresh();
    assert_eq!(RunId::from_value(id.value()), id);
}

#[test]
fn poll_returns_at_once_with_nothing_buffered() {
    // The library-level poll never blocks: with nothing buffered it comes
    // back immediately with an empty batch and the current flags. The
    // transport's timeout wait is layered on top of it.
    let (mut runner, _tx, _kill_rx) = shell_runner("true");
    let start = std::time::Instant::now();
    let out = runner.poll();
    assert!(out.data.is_empty());
    assert!(!out.end);
    assert!(start.elapsed() < std::time::Duration::from_secs(5));
}
