//! The verified core of the supervised worker handle: it owns the producer
//! endpoint of the worker's channel and the bookkeeping of the teardown
//! sequence. Teardown has two steps in a fixed order — destroy the producer
//! endpoint, so the worker observes disconnection, then wait for the worker
//! thread — and each step is recorded here so that repeating one is a no-op
//! and the wait can never be recorded before the disconnect.

use vstd::prelude::*;

use crate::channel::{clone_sender_raw, new_channel, send_raw};

verus! {

/// The handle's verified core. It holds the producer endpoint in a slot that
/// teardown empties explicitly, and a flag recording that the worker thread
/// has been waited on. The embedding program owns the thread itself and its
/// join token; it must drive teardown in the contract's order: `release_sender`
/// first, the join next, `mark_joined` last.
#[verifier::reject_recursive_types(T)]
pub struct DropWorker<T> {
    sender: Option<crossbeam::channel::Sender<T>>,
    joined: bool,
}

impl<T> DropWorker<T> {
    /// Teardown step one has happened: the producer endpoint is destroyed.
    pub closed spec fn released(&self) -> bool {
        self.sender is None
    }

    /// Teardown step two has happened: the worker thread has been waited on.
    pub closed spec fn joined(&self) -> bool {
        self.joined
    }

    /// The teardown-order invariant: the join is never on record while the
    /// producer endpoint still exists.
    pub open spec fn wf(&self) -> bool {
        self.joined() ==> self.released()
    }

    /// The handle after teardown step one: the producer endpoint is gone,
    /// everything else unchanged.
    pub closed spec fn release_spec(self) -> DropWorker<T> {
        DropWorker { sender: None, joined: self.joined }
    }

    /// The handle after teardown step two: the join is on record, everything
    /// else unchanged.
    pub closed spec fn join_spec(self) -> DropWorker<T> {
        DropWorker { sender: self.sender, joined: true }
    }

    /// Creates a fresh channel and a handle owning its producer endpoint.
    /// The consumer endpoint is returned beside the handle, to be moved into
    /// the one worker thread that the embedding program spawns for it.
    pub fn new() -> (r: (DropWorker<T>, crossbeam::channel::Receiver<T>))
        ensures
            !r.0.released(),
            !r.0.joined(),
            r.0.wf(),
    {
        let (sender, receiver) = new_channel();
        (DropWorker { sender: Some(sender), joined: false }, receiver)
    }

    /// Sends a value to the worker. Once this handle has released its
    /// producer endpoint, the send fails and returns the value; and whenever
    /// the send fails — also when the worker dropped its consumer endpoint
    /// early — the value comes back unchanged, never half-delivered.
    pub fn send(&self, value: T) -> (r: Result<(), T>)
        ensures
            self.released() ==> r == Result::<(), T>::Err(value),
            r is Err ==> r == Result::<(), T>::Err(value),
    {
        match &self.sender {
            Some(sender) => send_raw(sender, value),
            None => Err(value),
        }
    }

    /// Hands out one more producer endpoint into the worker's channel, for
    /// multi-producer use: while a clone is alive, the channel does not
    /// disconnect when this handle releases its own endpoint. Returns a clone
    /// exactly as long as this handle still holds its endpoint.
    pub fn clone_sender(&self) -> (r: Option<crossbeam::channel::Sender<T>>)
        ensures
            r is Some <==> !self.released(),
    {
        match &self.sender {
            Some(sender) => Some(clone_sender_raw(sender)),
            None => None,
        }
    }

    /// Teardown step one: destroys the producer endpoint now, forcing the
    /// channel into a state the worker observes as disconnected once every
    /// other producer endpoint is gone too. Repeating it changes nothing.
    pub fn release_sender(&mut self)
        ensures
            *final(self) == old(self).release_spec(),
            final(self).released(),
            final(self).joined() == old(self).joined(),
            old(self).wf() ==> final(self).wf(),
            old(self).released() ==> *final(self) == *old(self),
    {
        self.sender = None;
    }

    /// Records teardown step two, after the embedding program has waited for
    /// the worker thread to terminate. It demands that step one has already
    /// happened: the join must never precede the disconnect, or a worker
    /// blocked on its channel would be waited on forever. Repeating it
    /// changes nothing.
    pub fn mark_joined(&mut self)
        requires
            old(self).released(),
        ensures
            *final(self) == old(self).join_spec(),
            final(self).joined(),
            final(self).released(),
            final(self).wf(),
            old(self).joined() ==> *final(self) == *old(self),
    {
        self.joined = true;
    }

    /// Whether teardown step one has happened.
    pub fn is_released(&self) -> (b: bool)
        ensures
            b == self.released(),
    {
        match &self.sender {
            Some(_) => false,
            None => true,
        }
    }

    /// Whether teardown step two is on record.
    pub fn is_joined(&self) -> (b: bool)
        ensures
            b == self.joined(),
    {
        self.joined
    }

    /// Law: join strictly after disconnect — in every well-formed handle on
    /// which the join is on record, the producer endpoint is already gone.
    pub proof fn lemma_join_after_release(self)
        requires
            self.wf(),
            self.joined(),
        ensures
            self.released(),
    {
    }

    /// Law: teardown step one is idempotent — releasing an already released
    /// handle is the identity.
    pub proof fn lemma_release_idempotent(self)
        ensures
            self.release_spec().release_spec() == self.release_spec(),
            self.released() ==> self.release_spec() == self,
    {
    }

    /// Law: teardown step two is idempotent — recording the join twice is the
    /// same as recording it once.
    pub proof fn lemma_join_idempotent(self)
        ensures
            self.join_spec().join_spec() == self.join_spec(),
            self.joined() ==> self.join_spec() == self,
    {
    }

    /// Law: one full teardown ends with the endpoint released and the join on
    /// record, well-formed; and running the whole teardown a second time is a
    /// no-op.
    pub proof fn lemma_teardown_complete(self)
        ensures
            self.release_spec().join_spec().released(),
            self.release_spec().join_spec().joined(),
            self.release_spec().join_spec().wf(),
            self.release_spec().join_spec().release_spec().join_spec()
                == self.release_spec().join_spec(),
    {
    }
}

} // verus!
