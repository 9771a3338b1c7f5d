//! A verified run engine for heterogeneous tasks.
//!
//! A *run* is one execution of a task — an external shell process or a
//! sandboxed embedded-script program. The engine offers a uniform lifecycle
//! over both: start, query completion and success, poll buffered output
//! incrementally, and request cancellation. A process-wide registry owns the
//! live runs and enforces at most one live run per logical slot.
//!
//! The asynchronous edges (spawning processes, awaiting pipes and timers,
//! executing interpreter code) live outside this crate; they feed events and
//! byte chunks into the verified state machines defined here.

pub mod channel;
pub mod commands;
pub mod id;
pub mod mux;
pub mod output;
pub mod registry;
pub mod runner;
pub mod sheet;
pub mod status;
pub mod task;
