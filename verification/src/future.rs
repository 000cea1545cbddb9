//! The single-value await shape: one poll-engine invocation wrapped as a
//! one-shot asynchronous value.

use vstd::prelude::*;

use crate::receiver::PollResult;
use crate::receiver::RecvView;
use crate::receiver::Receiver;
use crate::receiver::poll_transition;
use crate::shared::Mode;
use crate::shared::SharedCore;

verus! {

/// A future used to receive a value from the channel. It holds the consumer
/// handle for the duration of the await and hands it back afterwards; each
/// poll is one step of the poll engine.
pub struct RecvFuture<T> {
    recv: Receiver<T>,
}

impl<T> View for RecvFuture<T> {
    type V = RecvView<T>;

    closed spec fn view(&self) -> RecvView<T> {
        self.recv@
    }
}

impl<T> RecvFuture<T> {
    /// Wraps a consumer handle for one awaited receive.
    pub fn new(recv: Receiver<T>) -> (f: RecvFuture<T>)
        ensures
            f@ == recv@,
    {
        RecvFuture { recv }
    }

    /// Releases the wrapped consumer handle, unchanged, once the await is
    /// over (or abandoned).
    pub fn into_receiver(self) -> (r: Receiver<T>)
        ensures
            r@ == self@,
    {
        self.recv
    }

    /// One poll of the awaited receive: exactly `poll_transition` on the
    /// wrapped consumer handle.
    pub fn poll(&mut self, core: &mut SharedCore<T>, lock_acquired: bool, waker: u64) -> (r:
        PollResult<T>)
        ensures
            (final(self)@, final(core)@, r) == poll_transition(
                old(self)@,
                old(core)@,
                lock_acquired,
                waker,
            ),
    {
        self.recv.poll(core, lock_acquired, waker)
    }

    /// Whether the wrapped consumer has observed the terminal mode; after a
    /// true answer the caller must not poll again.
    pub fn is_terminated(&self) -> (r: bool)
        ensures
            r == (self@.mode == Mode::Finished),
    {
        self.recv.is_terminated()
    }
}

} // verus!
