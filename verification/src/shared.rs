//! The shared core: state owned jointly by all producer handles and the
//! consumer handle, guarded by an external non-blocking lock. Callers hold
//! the lock (modelled as exclusive `&mut` access) while invoking the
//! operations here.

use std::collections::VecDeque;
use vstd::prelude::*;

verus! {

/// Lifecycle mode of the channel. `Finished` is terminal: no operation ever
/// transitions a core back to `Open`.
#[derive(Clone, Copy, PartialEq, Eq, Debug, Structural)]
pub enum Mode {
    Open,
    Finished,
}

/// Mathematical model of a shared core: the pending-message queue in arrival
/// order, the registered waker handles in registration order, and the mode.
#[verifier::ext_equal]
pub struct CoreView<T> {
    pub queue: Seq<T>,
    pub wakers: Seq<u64>,
    pub mode: Mode,
}

/// Outcome of a producer-side enqueue: either the message was queued (and at
/// most one registered waker handle must now be fired by the caller), or the
/// channel had finished and the message is handed back untouched.
pub enum EnqueueResult<T> {
    Queued(Option<u64>),
    Refused(T),
}

/// What `SharedCore::enqueue` does to a core: while the mode is `Open`, the
/// message goes to the back of the queue and the oldest registered waker (if
/// any) is removed and reported for firing; on a finished core nothing
/// changes and the message is refused.
pub open spec fn enqueue_transition<T>(c: CoreView<T>, msg: T) -> (CoreView<T>, EnqueueResult<T>) {
    if c.mode == Mode::Open {
        let fired = if c.wakers.len() > 0 {
            Option::Some(c.wakers[0])
        } else {
            Option::None
        };
        let rest = if c.wakers.len() > 0 {
            c.wakers.drop_first()
        } else {
            c.wakers
        };
        (
            CoreView { queue: c.queue.push(msg), wakers: rest, mode: c.mode },
            EnqueueResult::Queued(fired),
        )
    } else {
        (c, EnqueueResult::Refused(msg))
    }
}

/// What `SharedCore::finish` does to a core: the mode becomes `Finished`, the
/// queue keeps every still-undelivered message, and every registered waker is
/// removed and reported for firing.
pub open spec fn finish_transition<T>(c: CoreView<T>) -> (CoreView<T>, Seq<u64>) {
    (CoreView { queue: c.queue, wakers: Seq::empty(), mode: Mode::Finished }, c.wakers)
}

/// The lock-protected state shared between the producers and the consumer.
pub struct SharedCore<T> {
    queue: VecDeque<T>,
    wakers: VecDeque<u64>,
    mode: Mode,
}

impl<T> View for SharedCore<T> {
    type V = CoreView<T>;

    closed spec fn view(&self) -> CoreView<T> {
        CoreView { queue: self.queue@, wakers: self.wakers@, mode: self.mode }
    }
}

impl<T> SharedCore<T> {
    /// A fresh core: open, no pending messages, no registered wakers.
    pub fn new() -> (c: SharedCore<T>)
        ensures
            c@.queue.len() == 0,
            c@.wakers.len() == 0,
            c@.mode == Mode::Open,
    {
        SharedCore { queue: VecDeque::new(), wakers: VecDeque::new(), mode: Mode::Open }
    }

    /// The current lifecycle mode.
    pub fn read_mode(&self) -> (m: Mode)
        ensures
            m == self@.mode,
    {
        self.mode
    }

    /// Producer-side enqueue with wakeup notification, exactly
    /// `enqueue_transition`. The caller fires the returned waker handle after
    /// releasing the lock.
    pub fn enqueue(&mut self, msg: T) -> (r: EnqueueResult<T>)
        ensures
            (final(self)@, r) == enqueue_transition(old(self)@, msg),
    {
        if self.mode == Mode::Open {
            self.queue.push_back(msg);
            let fired = self.wakers.pop_front();
            EnqueueResult::Queued(fired)
        } else {
            EnqueueResult::Refused(msg)
        }
    }

    /// Marks the channel finished (all producers gone, or the consumer
    /// disconnected), exactly `finish_transition`. Pending messages stay
    /// deliverable; the returned waker handles must all be fired by the
    /// caller so a suspended consumer observes the disconnect.
    pub fn finish(&mut self) -> (ws: Vec<u64>)
        ensures
            (final(self)@, ws@) == finish_transition(old(self)@),
    {
        self.mode = Mode::Finished;
        let mut ws: Vec<u64> = Vec::new();
        while self.wakers.len() > 0
            invariant
                ws@ + self.wakers@ == old(self)@.wakers,
                self.queue@ == old(self)@.queue,
                self.mode == Mode::Finished,
            decreases self.wakers@.len(),
        {
            let ghost prev_ws = ws@;
            let ghost prev_wakers = self.wakers@;
            let w = self.wakers.pop_front().unwrap();
            ws.push(w);
            proof {
                assert(ws@ + self.wakers@ =~= prev_ws + prev_wakers);
            }
        }
        proof {
            assert(ws@ + self.wakers@ =~= ws@);
        }
        ws
    }

    /// Moves every queued message, in arrival order, to the back of `buf`,
    /// leaving the queue empty. This is the batch-drain step of the poll
    /// engine; wakers and mode are untouched.
    pub fn drain_into(&mut self, buf: &mut VecDeque<T>)
        ensures
            final(buf)@ == old(buf)@ + old(self)@.queue,
            final(self)@.queue == Seq::<T>::empty(),
            final(self)@.wakers == old(self)@.wakers,
            final(self)@.mode == old(self)@.mode,
    {
        buf.append(&mut self.queue);
    }

    /// Registers a waker handle for the suspended consumer. Called by the
    /// poll engine under the same lock acquisition as its emptiness check, so
    /// no enqueue can slip between the two.
    pub fn push_waker(&mut self, w: u64)
        ensures
            final(self)@.wakers == old(self)@.wakers.push(w),
            final(self)@.queue == old(self)@.queue,
            final(self)@.mode == old(self)@.mode,
    {
        self.wakers.push_back(w);
    }
}

} // verus!
