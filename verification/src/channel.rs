//! Declarations of the tokio channel halves a runner owns, and the two calls
//! the engine makes on them.
//!
//! The output channel is the bounded multi-producer single-consumer channel
//! that forwarding loops feed; the runner holds its receiving half and drains
//! it batch-wise during a poll. The kill channel is a one-shot signal; the
//! runner holds its sending half and fires it at most once.

use vstd::prelude::*;

use crate::output::RunnerOutput;

verus! {

/// tokio's bounded multi-producer single-consumer receiver; opaque here.
#[verifier::external_type_specification]
#[verifier::external_body]
#[verifier::reject_recursive_types(T)]
pub struct ExMpscReceiver<T>(tokio::sync::mpsc::Receiver<T>);

/// tokio's one-shot sender; opaque here.
#[verifier::external_type_specification]
#[verifier::external_body]
#[verifier::reject_recursive_types(T)]
pub struct ExOneshotSender<T>(tokio::sync::oneshot::Sender<T>);

/// Relies on `tokio::sync::mpsc::Receiver::try_recv`: hands out the next
/// buffered item when one is immediately available, and nothing when the
/// channel is momentarily empty or closed. What arrives depends on concurrent
/// senders, so nothing is assumed of the result.
#[verifier::external_body]
pub(crate) fn try_recv_output(rx: &mut tokio::sync::mpsc::Receiver<RunnerOutput>) -> Option<
    RunnerOutput,
>
{
    match rx.try_recv() {
        Ok(item) => Some(item),
        Err(_) => None,
    }
}

/// Relies on `tokio::sync::oneshot::Sender::send`: delivers the kill signal
/// to the receiving half if it still exists. A dropped receiver means the
/// supervising task is already gone, so that error is discarded.
#[verifier::external_body]
pub(crate) fn send_kill_signal(tx: tokio::sync::oneshot::Sender<()>) {
    let _ = tx.send(());
}

} // verus!
