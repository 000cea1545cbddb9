//! The consumer handle and the poll engine.
//!
//! A `Receiver` owns a local FIFO of already-dequeued messages and a cached
//! copy of the last lifecycle mode it observed. Each poll first drains the
//! local buffer; only on emptiness does it consult the shared core, whose
//! non-blocking lock the embedding attempts on the engine's behalf. The whole
//! step is captured by the spec function `poll_transition`, which every
//! polling entry point is proved to implement.

use std::collections::VecDeque;
use vstd::prelude::*;

use crate::shared::CoreView;
use crate::shared::Mode;
use crate::shared::SharedCore;

verus! {

/// Mathematical model of a consumer handle: the locally buffered messages in
/// arrival order, and the last lifecycle mode the consumer observed.
#[verifier::ext_equal]
pub struct RecvView<T> {
    pub buf: Seq<T>,
    pub mode: Mode,
}

/// Outcome of one poll, together with the scheduling action the embedding
/// must take. `Ready` carries a delivered message, `Disconnected` is the
/// terminal error, `PendingRetry` asks for an immediate reschedule (the lock
/// was contended; no waker was registered), and `PendingSuspended` means the
/// consumer's waker handle is now registered in the shared core and the task
/// resumes only when a producer fires it.
pub enum PollResult<T> {
    Ready(T),
    Disconnected,
    PendingRetry,
    PendingSuspended,
}

/// Every message the consumer is still owed, oldest first: the local buffer
/// followed by the shared queue.
pub open spec fn pending<T>(r: RecvView<T>, c: CoreView<T>) -> Seq<T> {
    r.buf + c.queue
}

/// One step of the poll engine, given the outcome of the lock attempt and
/// the waker handle of the current task:
/// - a buffered message is delivered without touching the core;
/// - otherwise, under contention, nothing changes and a retry is requested;
/// - otherwise the shared queue is drained into the buffer in order and its
///   oldest message delivered;
/// - an empty finished core yields the terminal disconnect;
/// - an empty open core registers the waker and suspends.
pub open spec fn poll_transition<T>(
    r: RecvView<T>,
    c: CoreView<T>,
    lock_acquired: bool,
    waker: u64,
) -> (RecvView<T>, CoreView<T>, PollResult<T>) {
    if r.buf.len() > 0 {
        (RecvView { buf: r.buf.drop_first(), mode: r.mode }, c, PollResult::Ready(r.buf[0]))
    } else if !lock_acquired {
        (r, c, PollResult::PendingRetry)
    } else if c.queue.len() > 0 {
        (
            RecvView { buf: c.queue.drop_first(), mode: c.mode },
            CoreView { queue: Seq::empty(), wakers: c.wakers, mode: c.mode },
            PollResult::Ready(c.queue[0]),
        )
    } else if c.mode == Mode::Finished {
        (RecvView { buf: r.buf, mode: Mode::Finished }, c, PollResult::Disconnected)
    } else {
        (
            RecvView { buf: r.buf, mode: c.mode },
            CoreView { queue: c.queue, wakers: c.wakers.push(waker), mode: c.mode },
            PollResult::PendingSuspended,
        )
    }
}

/// Outcome of one pull on the continuous consumption shape. The terminal
/// disconnect is deliberately folded into `End`: the stream signals
/// end-of-stream instead of surfacing an error.
pub enum NextResult<T> {
    Item(T),
    End,
    PendingRetry,
    PendingSuspended,
}

/// How the stream shape reports a poll outcome: a delivered message becomes
/// an item, the terminal disconnect becomes end-of-stream, and the two
/// pending flavours pass through.
pub open spec fn as_next<T>(r: PollResult<T>) -> NextResult<T> {
    match r {
        PollResult::Ready(m) => NextResult::Item(m),
        PollResult::Disconnected => NextResult::End,
        PollResult::PendingRetry => NextResult::PendingRetry,
        PollResult::PendingSuspended => NextResult::PendingSuspended,
    }
}

/// The consumer-side handle: exclusive owner of the local buffer.
pub struct Receiver<T> {
    buffer: VecDeque<T>,
    mode: Mode,
}

impl<T> View for Receiver<T> {
    type V = RecvView<T>;

    closed spec fn view(&self) -> RecvView<T> {
        RecvView { buf: self.buffer@, mode: self.mode }
    }
}

impl<T> Receiver<T> {
    /// A fresh consumer handle: empty buffer, mode observed as `Open`.
    pub fn new() -> (r: Receiver<T>)
        ensures
            r@.buf.len() == 0,
            r@.mode == Mode::Open,
    {
        Receiver { buffer: VecDeque::new(), mode: Mode::Open }
    }

    /// Removes and returns the oldest locally buffered message, if any. Never
    /// touches the shared core.
    pub fn pop_front(&mut self) -> (r: Option<T>)
        ensures
            final(self)@.mode == old(self)@.mode,
            match r {
                Option::Some(m) => old(self)@.buf.len() > 0 && m == old(self)@.buf[0]
                    && final(self)@.buf == old(self)@.buf.drop_first(),
                Option::None => old(self)@.buf.len() == 0 && final(self)@.buf == old(self)@.buf,
            },
    {
        let r = self.buffer.pop_front();
        proof {
            if old(self)@.buf.len() > 0 {
                assert(final(self)@.buf =~= old(self)@.buf.drop_first());
            }
        }
        r
    }

    /// The poll engine with the shared core in hand (the lock attempt
    /// succeeded): exactly `poll_transition` with `lock_acquired == true`.
    pub fn poll_locked(&mut self, core: &mut SharedCore<T>, waker: u64) -> (r: PollResult<T>)
        ensures
            (final(self)@, final(core)@, r) == poll_transition(old(self)@, old(core)@, true, waker),
    {
        if let Some(msg) = self.buffer.pop_front() {
            proof {
                assert(final(self)@.buf =~= old(self)@.buf.drop_first());
            }
            return PollResult::Ready(msg);
        }
        self.mode = core.read_mode();
        core.drain_into(&mut self.buffer);
        proof {
            assert(self@.buf =~= old(core)@.queue);
        }
        if let Some(msg) = self.buffer.pop_front() {
            proof {
                assert(final(self)@.buf =~= old(core)@.queue.drop_first());
                assert(final(core)@ =~= poll_transition(old(self)@, old(core)@, true, waker).1);
            }
            return PollResult::Ready(msg);
        }
        proof {
            assert(old(core)@.queue =~= Seq::<T>::empty());
            assert(final(self)@.buf =~= old(self)@.buf);
        }
        if self.mode == Mode::Finished {
            PollResult::Disconnected
        } else {
            core.push_waker(waker);
            proof {
                assert(final(core)@ =~= poll_transition(old(self)@, old(core)@, true, waker).1);
            }
            PollResult::PendingSuspended
        }
    }

    /// The poll engine when the lock attempt failed: a buffered message is
    /// still delivered; otherwise nothing changes and the embedding must
    /// reschedule the task immediately (busy retry, not a suspension).
    /// Exactly `poll_transition` with `lock_acquired == false`, for any core.
    pub fn poll_contended(&mut self) -> (r: PollResult<T>)
        ensures
            old(self)@.buf.len() > 0 ==> r == PollResult::Ready(old(self)@.buf[0])
                && final(self)@.buf == old(self)@.buf.drop_first()
                && final(self)@.mode == old(self)@.mode,
            old(self)@.buf.len() == 0 ==> r == PollResult::<T>::PendingRetry
                && final(self)@ == old(self)@,
    {
        match self.pop_front() {
            Some(msg) => PollResult::Ready(msg),
            None => {
                proof {
                    assert(final(self)@ =~= old(self)@);
                }
                PollResult::PendingRetry
            },
        }
    }

    /// One full poll of the receive path, with the lock attempt's outcome
    /// passed in as an event: exactly `poll_transition`.
    pub fn poll(&mut self, core: &mut SharedCore<T>, lock_acquired: bool, waker: u64) -> (r:
        PollResult<T>)
        ensures
            (final(self)@, final(core)@, r) == poll_transition(
                old(self)@,
                old(core)@,
                lock_acquired,
                waker,
            ),
    {
        if lock_acquired {
            self.poll_locked(core, waker)
        } else {
            let r = self.poll_contended();
            proof {
                assert(final(self)@ =~= poll_transition(old(self)@, old(core)@, false, waker).0);
            }
            r
        }
    }

    /// One pull on the continuous consumption shape: the same step as `poll`,
    /// with the terminal disconnect reported as end-of-stream.
    pub fn poll_next(&mut self, core: &mut SharedCore<T>, lock_acquired: bool, waker: u64) -> (r:
        NextResult<T>)
        ensures
            ({
                let (r2, c2, res) = poll_transition(old(self)@, old(core)@, lock_acquired, waker);
                final(self)@ == r2 && final(core)@ == c2 && r == as_next(res)
            }),
    {
        match self.poll(core, lock_acquired, waker) {
            PollResult::Ready(m) => NextResult::Item(m),
            PollResult::Disconnected => NextResult::End,
            PollResult::PendingRetry => NextResult::PendingRetry,
            PollResult::PendingSuspended => NextResult::PendingSuspended,
        }
    }

    /// Non-binding size estimate for the stream shape: at least the locally
    /// buffered messages are still to come, and no upper bound is known (more
    /// may yet be produced).
    pub fn size_hint(&self) -> (r: (usize, Option<usize>))
        ensures
            r.0 == self@.buf.len(),
            r.1 == Option::<usize>::None,
    {
        (self.buffer.len(), None)
    }

    /// Whether the consumer has observed the terminal mode. A true answer is
    /// definitive (`Finished` is terminal); a false answer is only a liveness
    /// hint, since the shared core may have finished unobserved.
    pub fn is_terminated(&self) -> (r: bool)
        ensures
            r == (self@.mode == Mode::Finished),
    {
        self.mode == Mode::Finished
    }
}

} // verus!
