//! Worker threads whose lifetime is bound to a handle.
//!
//! A handle owns the producer endpoint of a channel whose consumer endpoint
//! lives inside one dedicated worker thread. Dropping the handle destroys the
//! producer endpoint — the worker's next receive observes disconnection and
//! the worker function returns — and the teardown then waits for the thread
//! before it completes, so no handle leaves an orphaned thread behind.
//!
//! This crate holds the verified core: the handle's channel handling and
//! teardown bookkeeping ([`DropWorker`]), and the loop-control decisions a
//! worker uses to observe the stop signal ([`try_err`], [`recv_data`],
//! [`decide`], [`step`]). Spawning and joining the OS thread itself is left
//! to the embedding program, which drives the teardown in the order the
//! contracts demand: release the producer endpoint first, join the thread
//! next, record the join last.

mod channel;
mod control;
mod handle;

pub use control::{
    decide, lemma_disconnect_reaches_exit, lemma_exited_terminal, lemma_flow_agrees_with_machine,
    lemma_no_spurious_exit, lemma_recv_resolves, recv_data, step, try_err, Flow, TryRecv,
    WorkerState,
};
pub use control::{flow_of, poll_observes_disconnect, poll_of_recv, step_spec};
pub use crossbeam::channel::{Receiver, Sender};
pub use handle::DropWorker;
