//! Loop control for code running inside a worker thread: the decision rules
//! that tell a worker loop when to keep going and when to abort because the
//! handle on the other side is gone, and the small state machine such a
//! worker follows (running, disconnected and about to exit, exited).

use vstd::prelude::*;

use crate::channel::{recv_raw, try_recv_raw};

verus! {

/// Outcome of a single non-blocking poll of the consumer endpoint.
pub enum TryRecv<T> {
    /// An item was waiting in the channel.
    Item(T),
    /// No item was waiting, but some producer endpoint is still alive.
    Empty,
    /// Every producer endpoint has been destroyed; no item will ever arrive.
    Disconnected,
}

/// What a worker loop should do after one observation of its channel.
#[derive(Clone, Copy, PartialEq, Eq, Structural, Debug)]
pub enum Flow {
    /// Keep running: the channel was not seen disconnected.
    Continue,
    /// Abort the worker function: the channel is disconnected for good.
    Exit,
}

/// The states of a worker thread governed by the loop-control helpers.
#[derive(Clone, Copy, PartialEq, Eq, Structural, Debug)]
pub enum WorkerState {
    /// The worker loop is doing its work.
    Running,
    /// The worker has observed disconnection and is about to leave its loop.
    DisconnectedPendingExit,
    /// The worker function has returned. Terminal: no transition leaves it.
    Exited,
}

/// Whether one poll outcome is the disconnection signal.
pub open spec fn poll_observes_disconnect<T>(p: TryRecv<T>) -> bool {
    p is Disconnected
}

/// The loop decision a poll outcome calls for: exit exactly on disconnection;
/// an item or an empty-but-connected channel lets the loop continue.
pub open spec fn flow_of<T>(p: TryRecv<T>) -> Flow {
    if poll_observes_disconnect(p) {
        Flow::Exit
    } else {
        Flow::Continue
    }
}

/// A blocking receive seen as a poll outcome: it yields an item or resolves
/// as disconnected, and never reports the channel merely empty.
pub open spec fn poll_of_recv<T>(r: Option<T>) -> TryRecv<T> {
    match r {
        Some(v) => TryRecv::Item(v),
        None => TryRecv::Disconnected,
    }
}

/// One transition of the worker state machine: a running worker leaves its
/// loop exactly when it observes disconnection; a worker that has observed
/// disconnection exits unconditionally and immediately; an exited worker
/// stays exited.
pub open spec fn step_spec(s: WorkerState, observed_disconnect: bool) -> WorkerState {
    match s {
        WorkerState::Running => if observed_disconnect {
            WorkerState::DisconnectedPendingExit
        } else {
            WorkerState::Running
        },
        WorkerState::DisconnectedPendingExit => WorkerState::Exited,
        WorkerState::Exited => WorkerState::Exited,
    }
}

/// Turns one poll outcome into a loop decision. An `Item` is deliberately
/// discarded: this rule serves pure liveness loops that never consume data,
/// so a value that arrives while polling is dropped, not handed on.
pub fn decide<T>(p: &TryRecv<T>) -> (f: Flow)
    ensures
        f == flow_of(*p),
{
    match p {
        TryRecv::Disconnected => Flow::Exit,
        _ => Flow::Continue,
    }
}

/// Advances the worker state machine by one observation.
pub fn step<T>(s: WorkerState, p: &TryRecv<T>) -> (next: WorkerState)
    ensures
        next == step_spec(s, poll_observes_disconnect(*p)),
{
    match s {
        WorkerState::Running => match p {
            TryRecv::Disconnected => WorkerState::DisconnectedPendingExit,
            _ => WorkerState::Running,
        },
        WorkerState::DisconnectedPendingExit => WorkerState::Exited,
        WorkerState::Exited => WorkerState::Exited,
    }
}

/// Non-blocking disconnect check: polls the consumer endpoint once and says
/// whether the enclosing worker function should abort. Which outcome the poll
/// sees depends on the producer side; the decision applied to that outcome is
/// `flow_of`, proved exact on `decide`. An item seen by the poll is discarded.
pub fn try_err<T>(recv: &crossbeam::channel::Receiver<T>) -> Flow {
    let p = try_recv_raw(recv);
    decide(&p)
}

/// Blocking receive-or-abort: blocks until an item arrives (`Some`, to be
/// processed by the surrounding loop) or the channel disconnects (`None`,
/// upon which the enclosing worker function should abort). Which of the two
/// happens depends on the producer side.
pub fn recv_data<T>(recv: &crossbeam::channel::Receiver<T>) -> Option<T> {
    recv_raw(recv)
}

/// Law: the exited state is terminal — no further observation, disconnection
/// included, moves the machine out of it.
pub proof fn lemma_exited_terminal(observed_disconnect: bool)
    ensures
        step_spec(WorkerState::Exited, observed_disconnect) == WorkerState::Exited,
{
}

/// Law: once a worker observes disconnection, two further steps leave it
/// exited — whatever those steps observe, and from whatever state it was in —
/// and it then stays exited.
pub proof fn lemma_disconnect_reaches_exit(s: WorkerState, o1: bool, o2: bool)
    ensures
        step_spec(step_spec(step_spec(s, true), o1), o2) == WorkerState::Exited,
{
}

/// Law: no spurious exit — while no disconnection is observed, a running
/// worker stays running.
pub proof fn lemma_no_spurious_exit()
    ensures
        step_spec(WorkerState::Running, false) == WorkerState::Running,
{
}

/// Law: the non-blocking helper's decision agrees with the state machine — it
/// says exit exactly when the observation moves a running worker out of the
/// running state.
pub proof fn lemma_flow_agrees_with_machine<T>(p: TryRecv<T>)
    ensures
        (flow_of(p) == Flow::Exit) <==> (step_spec(
            WorkerState::Running,
            poll_observes_disconnect(p),
        ) != WorkerState::Running),
{
}

/// Law: a blocking receive never reports the channel merely empty, and its
/// outcome calls for an abort exactly when it resolved as disconnected.
pub proof fn lemma_recv_resolves<T>(r: Option<T>)
    ensures
        poll_of_recv(r) !is Empty,
        (flow_of(poll_of_recv(r)) == Flow::Exit) <==> (r is None),
{
}

} // verus!
