//! Protocol laws.
//!
//! The channel's behaviour under any interleaving of consumer polls,
//! producer enqueues and the finish transition is the iteration of the three
//! spec-level transitions that the executable operations are proved to
//! implement. The proof functions here state the delivery guarantees of that
//! iteration: conservation of messages (each accepted message is delivered
//! exactly once, in order), wakeup delivery, terminal stability of the
//! disconnect, and harmlessness of stale wakeups.

use vstd::prelude::*;

use crate::receiver::PollResult;
use crate::receiver::RecvView;
use crate::receiver::pending;
use crate::receiver::poll_transition;
use crate::shared::CoreView;
use crate::shared::EnqueueResult;
use crate::shared::Mode;
use crate::shared::enqueue_transition;
use crate::shared::finish_transition;

verus! {

/// One observable event of the protocol: a consumer poll (with the outcome
/// of the lock attempt and the task's waker handle), a producer enqueue, or
/// the finish transition.
pub enum Event<T> {
    Poll { lock_acquired: bool, waker: u64 },
    Enqueue { msg: T },
    Finish,
}

/// A poll event.
pub open spec fn ev_poll<T>(lock_acquired: bool, waker: u64) -> Event<T> {
    Event::Poll { lock_acquired, waker }
}

/// An enqueue event.
pub open spec fn ev_enqueue<T>(msg: T) -> Event<T> {
    Event::Enqueue { msg }
}

/// The finish event.
pub open spec fn ev_finish<T>() -> Event<T> {
    Event::Finish
}

/// The state reached from `(r, c)` by one event.
pub open spec fn step<T>(r: RecvView<T>, c: CoreView<T>, e: Event<T>) -> (RecvView<T>, CoreView<
    T,
>) {
    match e {
        Event::Poll { lock_acquired, waker } => {
            let (r2, c2, res) = poll_transition(r, c, lock_acquired, waker);
            (r2, c2)
        },
        Event::Enqueue { msg } => {
            let (c2, res) = enqueue_transition(c, msg);
            (r, c2)
        },
        Event::Finish => {
            let (c2, ws) = finish_transition(c);
            (r, c2)
        },
    }
}

/// The state reached from `(r, c)` by a sequence of events, oldest first.
pub open spec fn run<T>(r: RecvView<T>, c: CoreView<T>, es: Seq<Event<T>>) -> (RecvView<T>, CoreView<
    T,
>)
    decreases es.len(),
{
    if es.len() == 0 {
        (r, c)
    } else {
        let (r2, c2) = step(r, c, es[0]);
        run(r2, c2, es.drop_first())
    }
}

/// The messages the polls among `es` deliver, in delivery order.
pub open spec fn delivered_by<T>(r: RecvView<T>, c: CoreView<T>, es: Seq<Event<T>>) -> Seq<T>
    decreases es.len(),
{
    if es.len() == 0 {
        Seq::empty()
    } else {
        let here = match es[0] {
            Event::Poll { lock_acquired, waker } => {
                match poll_transition(r, c, lock_acquired, waker).2 {
                    PollResult::Ready(m) => seq![m],
                    _ => Seq::empty(),
                }
            },
            _ => Seq::empty(),
        };
        let (r2, c2) = step(r, c, es[0]);
        here + delivered_by(r2, c2, es.drop_first())
    }
}

/// The messages the enqueues among `es` get accepted (the channel still
/// open), in acceptance order.
pub open spec fn accepted_by<T>(r: RecvView<T>, c: CoreView<T>, es: Seq<Event<T>>) -> Seq<T>
    decreases es.len(),
{
    if es.len() == 0 {
        Seq::empty()
    } else {
        let here = match es[0] {
            Event::Enqueue { msg } => if c.mode == Mode::Open {
                seq![msg]
            } else {
                Seq::empty()
            },
            _ => Seq::empty(),
        };
        let (r2, c2) = step(r, c, es[0]);
        here + accepted_by(r2, c2, es.drop_first())
    }
}

/// Conservation of messages: under any interleaving of polls, enqueues and
/// finishes, what the channel owed beforehand followed by what it accepted
/// equals what it delivered followed by what it still owes. No message is
/// lost, duplicated, or reordered.
pub proof fn lemma_message_conservation<T>(r: RecvView<T>, c: CoreView<T>, es: Seq<Event<T>>)
    ensures
        ({
            let (r2, c2) = run(r, c, es);
            pending(r, c) + accepted_by(r, c, es) == delivered_by(r, c, es) + pending(r2, c2)
        }),
    decreases es.len(),
{
    if es.len() == 0 {
        assert(pending(r, c) + accepted_by(r, c, es) =~= delivered_by(r, c, es) + pending(r, c));
    } else {
        let e = es[0];
        let (r1, c1) = step(r, c, e);
        lemma_message_conservation(r1, c1, es.drop_first());
        let acc1 = accepted_by(r1, c1, es.drop_first());
        let del1 = delivered_by(r1, c1, es.drop_first());
        let (rf, cf) = run(r1, c1, es.drop_first());
        match e {
            Event::Poll { lock_acquired, waker } => {
                let res = poll_transition(r, c, lock_acquired, waker).2;
                assert(accepted_by(r, c, es) =~= acc1);
                match res {
                    PollResult::Ready(m) => {
                        assert(pending(r, c) =~= seq![m] + pending(r1, c1));
                        assert(delivered_by(r, c, es) =~= seq![m] + del1);
                        assert(pending(r, c) + acc1 =~= seq![m] + (pending(r1, c1) + acc1));
                        assert((seq![m] + del1) + pending(rf, cf) =~= seq![m] + (del1 + pending(
                            rf,
                            cf,
                        )));
                    },
                    _ => {
                        assert(pending(r1, c1) =~= pending(r, c));
                        assert(delivered_by(r, c, es) =~= del1);
                    },
                }
            },
            Event::Enqueue { msg } => {
                assert(delivered_by(r, c, es) =~= del1);
                if c.mode == Mode::Open {
                    assert(pending(r1, c1) =~= pending(r, c) + seq![msg]);
                    assert(accepted_by(r, c, es) =~= seq![msg] + acc1);
                    assert(pending(r, c) + (seq![msg] + acc1) =~= (pending(r, c) + seq![msg])
                        + acc1);
                } else {
                    assert(pending(r1, c1) =~= pending(r, c));
                    assert(accepted_by(r, c, es) =~= acc1);
                }
            },
            Event::Finish => {
                assert(pending(r1, c1) =~= pending(r, c));
                assert(delivered_by(r, c, es) =~= del1);
                assert(accepted_by(r, c, es) =~= acc1);
            },
        }
    }
}

/// Exactly-once delivery: an interleaving that starts and ends with nothing
/// owed delivers precisely the accepted messages, in acceptance order —
/// each accepted message is returned by exactly one receive, never zero
/// times, never twice.
pub proof fn lemma_exactly_once<T>(r: RecvView<T>, c: CoreView<T>, es: Seq<Event<T>>)
    requires
        pending(r, c).len() == 0,
        pending(run(r, c, es).0, run(r, c, es).1).len() == 0,
    ensures
        delivered_by(r, c, es) == accepted_by(r, c, es),
{
    lemma_message_conservation(r, c, es);
    let (r2, c2) = run(r, c, es);
    assert(pending(r, c) + accepted_by(r, c, es) =~= accepted_by(r, c, es));
    assert(delivered_by(r, c, es) + pending(r2, c2) =~= delivered_by(r, c, es));
}

/// Running a concatenation of event sequences is running the first, then
/// the second from where the first left off; deliveries concatenate the same
/// way.
pub proof fn lemma_run_concat<T>(
    r: RecvView<T>,
    c: CoreView<T>,
    es1: Seq<Event<T>>,
    es2: Seq<Event<T>>,
)
    ensures
        ({
            let (r1, c1) = run(r, c, es1);
            run(r, c, es1 + es2) == run(r1, c1, es2) && delivered_by(r, c, es1 + es2)
                == delivered_by(r, c, es1) + delivered_by(r1, c1, es2)
        }),
    decreases es1.len(),
{
    let (r1, c1) = run(r, c, es1);
    if es1.len() == 0 {
        assert(es1 + es2 =~= es2);
        assert(delivered_by(r, c, es1) + delivered_by(r1, c1, es2) =~= delivered_by(r1, c1, es2));
    } else {
        let (r2, c2) = step(r, c, es1[0]);
        assert((es1 + es2).drop_first() =~= es1.drop_first() + es2);
        lemma_run_concat(r2, c2, es1.drop_first(), es2);
        let here = delivered_by(r, c, es1 + es2).take(
            delivered_by(r, c, es1 + es2).len() - delivered_by(
                r2,
                c2,
                es1.drop_first() + es2,
            ).len(),
        );
        let d0 = match es1[0] {
            Event::Poll { lock_acquired, waker } => {
                match poll_transition(r, c, lock_acquired, waker).2 {
                    PollResult::Ready(m) => seq![m],
                    _ => Seq::<T>::empty(),
                }
            },
            _ => Seq::<T>::empty(),
        };
        assert(delivered_by(r, c, es1 + es2) =~= d0 + (delivered_by(r2, c2, es1.drop_first())
            + delivered_by(r1, c1, es2)));
        assert(d0 + (delivered_by(r2, c2, es1.drop_first()) + delivered_by(r1, c1, es2)) =~= (d0
            + delivered_by(r2, c2, es1.drop_first())) + delivered_by(r1, c1, es2));
    }
}

/// `n` consecutive polls, each with the lock acquired, all registering the
/// same waker handle.
pub open spec fn locked_polls<T>(n: nat, waker: u64) -> Seq<Event<T>>
    decreases n,
{
    if n == 0 {
        Seq::empty()
    } else {
        seq![ev_poll(true, waker)] + locked_polls((n - 1) as nat, waker)
    }
}

/// A poll with the lock acquired, while anything is owed, delivers the
/// oldest owed message and owes exactly the rest afterwards.
pub proof fn lemma_locked_poll_delivers<T>(r: RecvView<T>, c: CoreView<T>, waker: u64)
    requires
        pending(r, c).len() > 0,
    ensures
        ({
            let (r2, c2, res) = poll_transition(r, c, true, waker);
            res == PollResult::Ready(pending(r, c)[0]) && pending(r2, c2) == pending(
                r,
                c,
            ).drop_first()
        }),
{
    let (r2, c2, res) = poll_transition(r, c, true, waker);
    if r.buf.len() > 0 {
        assert(pending(r2, c2) =~= pending(r, c).drop_first());
    } else {
        assert(pending(r, c) =~= c.queue);
        assert(pending(r2, c2) =~= c.queue.drop_first());
        assert(pending(r, c).drop_first() =~= c.queue.drop_first());
    }
}

/// `n` locked polls deliver the `n` oldest owed messages, in order, and owe
/// exactly the remainder afterwards.
pub proof fn lemma_polls_deliver_prefix<T>(r: RecvView<T>, c: CoreView<T>, n: nat, waker: u64)
    requires
        n <= pending(r, c).len(),
    ensures
        ({
            let (r2, c2) = run(r, c, locked_polls(n, waker));
            delivered_by(r, c, locked_polls(n, waker)) == pending(r, c).take(n as int) && pending(
                r2,
                c2,
            ) == pending(r, c).skip(n as int)
        }),
    decreases n,
{
    let es = locked_polls::<T>(n, waker);
    if n == 0 {
        assert(delivered_by(r, c, es) =~= pending(r, c).take(0));
        assert(pending(r, c) =~= pending(r, c).skip(0));
    } else {
        lemma_locked_poll_delivers(r, c, waker);
        let (r1, c1) = step(r, c, es[0]);
        assert(es.drop_first() =~= locked_polls::<T>((n - 1) as nat, waker));
        lemma_polls_deliver_prefix(r1, c1, (n - 1) as nat, waker);
        assert(delivered_by(r, c, es) =~= seq![pending(r, c)[0]] + pending(r1, c1).take(
            n - 1,
        ));
        assert(seq![pending(r, c)[0]] + pending(r, c).drop_first().take(n - 1) =~= pending(
            r,
            c,
        ).take(n as int));
        assert(pending(r, c).drop_first().skip(n - 1) =~= pending(r, c).skip(n as int));
    }
}

/// FIFO per producer: three messages enqueued by one producer with nothing
/// interleaved are delivered in that order — after everything the channel
/// already owed, the consumer receives exactly `m1`, then `m2`, then `m3`.
pub proof fn fifo_per_producer<T>(r: RecvView<T>, c: CoreView<T>, m1: T, m2: T, m3: T, waker: u64)
    requires
        c.mode == Mode::Open,
    ensures
        ({
            let enqueues = seq![ev_enqueue(m1), ev_enqueue(m2), ev_enqueue(m3)];
            let polls = locked_polls::<T>(pending(r, c).len() + 3, waker);
            delivered_by(r, c, enqueues + polls) == pending(r, c) + seq![m1, m2, m3]
        }),
{
    let e1 = ev_enqueue::<T>(m1);
    let e2 = ev_enqueue::<T>(m2);
    let e3 = ev_enqueue::<T>(m3);
    let enqueues = seq![e1, e2, e3];
    let tail1 = seq![e2, e3];
    let tail2 = seq![e3];
    let none = Seq::<Event<T>>::empty();
    let polls = locked_polls::<T>(pending(r, c).len() + 3, waker);
    assert(enqueues.drop_first() =~= tail1);
    assert(tail1.drop_first() =~= tail2);
    assert(tail2.drop_first() =~= none);
    let (ra, ca) = step(r, c, e1);
    let (rb, cb) = step(ra, ca, e2);
    let (rz, cz) = step(rb, cb, e3);
    assert(run(r, c, enqueues) == run(ra, ca, tail1));
    assert(run(ra, ca, tail1) == run(rb, cb, tail2));
    assert(run(rb, cb, tail2) == run(rz, cz, none));
    assert(run(rz, cz, none) == (rz, cz));
    assert(pending(ra, ca) =~= pending(r, c) + seq![m1]);
    assert(pending(rb, cb) =~= pending(ra, ca) + seq![m2]);
    assert(pending(rz, cz) =~= pending(rb, cb) + seq![m3]);
    assert(pending(rz, cz) =~= pending(r, c) + seq![m1, m2, m3]);
    assert(delivered_by(r, c, enqueues) =~= delivered_by(ra, ca, tail1));
    assert(delivered_by(ra, ca, tail1) =~= delivered_by(rb, cb, tail2));
    assert(delivered_by(rb, cb, tail2) =~= delivered_by(rz, cz, none));
    assert(delivered_by(r, c, enqueues) =~= Seq::<T>::empty());
    lemma_run_concat(r, c, enqueues, polls);
    lemma_polls_deliver_prefix(rz, cz, pending(rz, cz).len(), waker);
    assert(delivered_by(rz, cz, polls) =~= pending(rz, cz));
    assert(delivered_by(r, c, enqueues + polls) =~= pending(r, c) + seq![m1, m2, m3]);
}

/// No lost wakeup: when a poll finds the channel empty and open, it
/// registers its waker under the same lock acquisition as the emptiness
/// check; an enqueue that follows — however it is interleaved with the
/// registration, since both hold the lock — necessarily finds a registered
/// waker, fires one, and the woken consumer's next poll observes the
/// message.
pub proof fn no_lost_wakeup<T>(r: RecvView<T>, c: CoreView<T>, msg: T, w: u64, w2: u64)
    requires
        r.buf.len() == 0,
        c.queue.len() == 0,
        c.mode == Mode::Open,
    ensures
        ({
            let (r1, c1, res1) = poll_transition(r, c, true, w);
            let (c2, sent) = enqueue_transition(c1, msg);
            let (r3, c3, res3) = poll_transition(r1, c2, true, w2);
            res1 == PollResult::<T>::PendingSuspended && c1.wakers == c.wakers.push(w) && sent
                == EnqueueResult::<T>::Queued(Option::Some(c1.wakers[0])) && res3
                == PollResult::Ready(msg)
        }),
{
    let (r1, c1, res1) = poll_transition(r, c, true, w);
    let (c2, sent) = enqueue_transition(c1, msg);
    assert(c2.queue =~= c.queue.push(msg));
    assert(c2.queue[0] == msg);
}

/// The states from which a receive attempt can only observe the disconnect:
/// nothing owed anywhere and the shared core finished.
pub open spec fn disconnect_observed<T>(r: RecvView<T>, c: CoreView<T>) -> bool {
    r.buf.len() == 0 && c.queue.len() == 0 && c.mode == Mode::Finished
}

/// Terminal stability: once the disconnect is observable, no interleaving of
/// further polls, enqueues (all refused) and finishes leaves that state, and
/// every receive attempt that reaches the core still observes `Disconnected`.
pub proof fn terminal_stability<T>(r: RecvView<T>, c: CoreView<T>, es: Seq<Event<T>>, waker: u64)
    requires
        disconnect_observed(r, c),
    ensures
        ({
            let (r2, c2) = run(r, c, es);
            disconnect_observed(r2, c2) && poll_transition(r2, c2, true, waker).2
                == PollResult::<T>::Disconnected
        }),
    decreases es.len(),
{
    if es.len() > 0 {
        let (r1, c1) = step(r, c, es[0]);
        assert(disconnect_observed(r1, c1));
        terminal_stability(r1, c1, es.drop_first(), waker);
    }
}

/// The consumer's termination report is truthful: it claims the terminal
/// mode only if the shared core really is finished.
pub open spec fn report_truthful<T>(r: RecvView<T>, c: CoreView<T>) -> bool {
    r.mode == Mode::Finished ==> c.mode == Mode::Finished
}

/// Sound termination reporting: the consumer's cached mode is only ever a
/// mode it observed under the lock, so under any interleaving a consumer
/// that reports terminated is right — the core has finished, and (the mode
/// being terminal) no successful receive is structurally possible once the
/// owed messages run out.
pub proof fn lemma_termination_report_sound<T>(r: RecvView<T>, c: CoreView<T>, es: Seq<Event<T>>)
    requires
        report_truthful(r, c),
    ensures
        report_truthful(run(r, c, es).0, run(r, c, es).1),
    decreases es.len(),
{
    if es.len() > 0 {
        let (r1, c1) = step(r, c, es[0]);
        assert(report_truthful(r1, c1));
        lemma_termination_report_sound(r1, c1, es.drop_first());
    }
}

/// Harmless stale wakeup: a wakeup that reaches a consumer with nothing owed
/// only triggers a poll that delivers nothing, owes nothing new, and leaves
/// the queue and mode of the shared core as they were — at most a fresh
/// waker is registered. Polling spuriously can never deliver a message
/// twice or corrupt the channel.
pub proof fn stale_wakeup_harmless<T>(
    r: RecvView<T>,
    c: CoreView<T>,
    lock_acquired: bool,
    waker: u64,
)
    requires
        pending(r, c).len() == 0,
    ensures
        ({
            let (r2, c2, res) = poll_transition(r, c, lock_acquired, waker);
            !(res matches PollResult::Ready(_)) && pending(r2, c2).len() == 0 && c2.queue
                == c.queue && c2.mode == c.mode
        }),
{
    assert(r.buf.len() == 0 && c.queue.len() == 0);
}

} // verus!

