use webb_runner::status::{FailReason, RunStatus};

#[test]
fn fresh_status_is_pending() {
    let status = RunStatus::new();
    assert!(!status.is_done());
    assert_eq!(status.is_successful(), None);
}

#[test]
fn success_settles_once() {
    let mut status = RunStatus::new();
    assert!(status.success().is_ok());
    assert!(status.is_done());
    assert_eq!(status.is_successful(), Some(true));

    // A second completion report is an invariant violation and changes
    // nothing.
    assert!(status.success().is_err());
    assert!(status.failure(FailReason::Killed).is_err());
    assert!(status.is_done());
    assert_eq!(status.is_successful(), Some(true));
}

#[test]
fn failure_settles_once() {
    let mut status = RunStatus::new();
    assert!(status.failure(FailReason::NonZeroExit).is_ok());
    assert!(status.is_done());
    assert_eq!(status.is_successful(), Some(false));

    assert!(status.success().is_err());
    assert_eq!(status.is_successful(), Some(false));
}

#[test]
fn success_flag_absent_until_done() {
    // The success flag is `None` exactly while the run is not done, and
    // `Some` permanently thereafter.
    let mut status = RunStatus::new();
    assert_eq!(status.is_successful().is_none(), !status.is_done());

    assert!(status.failure(FailReason::ScriptError("boom".to_string())).is_ok());
    assert_eq!(status.is_successful().is_none(), !status.is_done());
    assert_eq!(status.is_successful(), Some(false));

    // No later report brings it back to pending.
    let _ = status.success();
    let _ = status.failure(FailReason::Killed);
    assert!(status.is_done());
    assert_eq!(status.is_successful(), Some(false));
}
