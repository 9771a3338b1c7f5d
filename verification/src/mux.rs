//! Decision logic of the output multiplexer.
//!
//! For each byte source attached to a task, a forwarding loop outside this
//! crate reads available bytes and sends them, tagged, into the run's shared
//! output channel. The loop's termination rule is subtle — a zero-length read
//! on a pipe can be transient, so the loop may only stop on one once
//! completion has been signaled, else a process's last buffered output could
//! be lost. That rule is [`forward_step`]. [`copy_window`] is the read step
//! of an in-memory byte source: the slice a reader at a cursor is handed.

use vstd::prelude::*;

verus! {

/// What a forwarding loop does after one read of its byte source.
#[derive(Debug, Clone, Copy, PartialEq, Eq, Structural)]
pub enum ForwardStep {
    /// Stop forwarding: the channel has no consumer left, or the task is done
    /// and the source is drained.
    Stop,
    /// Tag the chunk that was read and send it into the output channel.
    Send,
    /// Yield briefly and read again: the read failed, or it returned nothing
    /// while the task may still produce output.
    Retry,
}

/// One decision of the forwarding loop. `channel_open` says whether the
/// output channel still has its consumer; `read` is how many bytes the last
/// read returned, or `None` when it failed; `done` is the task's completion
/// flag at the time of the read.
///
/// The loop stops only when the channel is gone or when a zero-length read is
/// observed after completion was signaled; a transient zero-length read
/// before that yields and retries rather than stopping or busy-spinning.
pub fn forward_step(channel_open: bool, read: Option<usize>, done: bool) -> (r: ForwardStep)
    ensures
        !channel_open ==> r == ForwardStep::Stop,
        channel_open && read is None ==> r == ForwardStep::Retry,
        read matches Some(n) && channel_open && n > 0 ==> r == ForwardStep::Send,
        channel_open && read == Some(0usize) && done ==> r == ForwardStep::Stop,
        channel_open && read == Some(0usize) && !done ==> r == ForwardStep::Retry,
{
    if !channel_open {
        return ForwardStep::Stop;
    }
    match read {
        None => ForwardStep::Retry,
        Some(n) => {
            if n == 0 {
                if done {
                    ForwardStep::Stop
                } else {
                    ForwardStep::Retry
                }
            } else {
                ForwardStep::Send
            }
        },
    }
}

/// Where a read at `cursor` with room for `capacity` bytes ends within data
/// of length `len`: at the capacity or at the end, whichever comes first.
pub open spec fn window_end(len: nat, cursor: nat, capacity: nat) -> int {
    if cursor + capacity <= len {
        (cursor + capacity) as int
    } else {
        len as int
    }
}

/// The bytes one read call hands out of a growing in-memory buffer:
/// everything from the reader's cursor up to [`window_end`]. Empty exactly
/// when the cursor has caught up with the data.
pub fn copy_window(data: &Vec<u8>, cursor: usize, capacity: usize) -> (r: Vec<u8>)
    requires
        cursor <= data@.len(),
    ensures
        r@ == data@.subrange(cursor as int, window_end(data@.len(), cursor as nat, capacity as nat)),
        r@.len() == 0 <==> (cursor == data@.len() || capacity == 0),
{
    let end = if data.len() - cursor < capacity {
        data.len()
    } else {
        cursor + capacity
    };
    let mut r: Vec<u8> = Vec::new();
    let mut i: usize = cursor;
    while i < end
        invariant
            cursor <= i <= end,
            end == window_end(data@.len(), cursor as nat, capacity as nat),
            end <= data@.len(),
            r@ == data@.subrange(cursor as int, i as int),
        decreases end - i,
    {
        r.push(data[i]);
        proof {
            assert(data@.subrange(cursor as int, i as int + 1) =~= data@.subrange(
                cursor as int,
                i as int,
            ).push(data@[i as int]));
        }
        i = i + 1;
    }
    r
}

} // verus!
