use recvpoll::future::RecvFuture;
use recvpoll::receiver::NextResult;
use recvpoll::receiver::PollResult;
use recvpoll::receiver::Receiver;
use recvpoll::shared::EnqueueResult;
use recvpoll::shared::Mode;
use recvpoll::shared::SharedCore;

fn expect_ready(r: PollResult<u64>) -> u64 {
    match r {
        PollResult::Ready(m) => m,
        PollResult::Disconnected => panic!("expected a message, got Disconnected"),
        PollResult::PendingRetry => panic!("expected a message, got PendingRetry"),
        PollResult::PendingSuspended => panic!("expected a message, got PendingSuspended"),
    }
}

fn expect_queued(r: EnqueueResult<u64>) -> Option<u64> {
    match r {
        EnqueueResult::Queued(fired) => fired,
        EnqueueResult::Refused(_) => panic!("enqueue was refused"),
    }
}

#[test]
fn scenario_open_empty_then_enqueue() {
    // Channel open and empty; the consumer polls and suspends; a producer
    // enqueues 42, which fires the registered waker; the rescheduled
    // consumer polls again and receives 42.
    let mut core: SharedCore<u64> = SharedCore::new();
    let mut recv: Receiver<u64> = Receiver::new();
    assert!(matches!(recv.poll(&mut core, true, 1), PollResult::PendingSuspended));
    let fired = expect_queued(core.enqueue(42));
    assert_eq!(fired, Some(1));
    assert_eq!(expect_ready(recv.poll(&mut core, true, 2)), 42);
}

#[test]
fn scenario_prequeued_then_disconnect() {
    // Channel open with [7, 8] pre-queued: the first poll batch-drains both
    // and delivers 7, the second delivers 8 from the local buffer; once the
    // producers are gone and the mode is Finished, the next poll yields the
    // terminal disconnect.
    let mut core: SharedCore<u64> = SharedCore::new();
    let mut recv: Receiver<u64> = Receiver::new();
    expect_queued(core.enqueue(7));
    expect_queued(core.enqueue(8));
    assert_eq!(expect_ready(recv.poll(&mut core, true, 1)), 7);
    // The batch drain left 8 in the local buffer.
    assert_eq!(recv.size_hint().0, 1);
    assert_eq!(expect_ready(recv.poll(&mut core, true, 2)), 8);
    let fired = core.finish();
    assert!(fired.is_empty());
    assert!(matches!(recv.poll(&mut core, true, 3), PollResult::Disconnected));
}

#[test]
fn scenario_ten_producers_interleaved() {
    // Ten producers each enqueue one distinct message while the consumer
    // keeps polling, with lock contention interleaved; every message is
    // received exactly once.
    let mut core: SharedCore<u64> = SharedCore::new();
    let mut recv: Receiver<u64> = Receiver::new();
    let mut got: Vec<u64> = Vec::new();
    let mut waker: u64 = 0;
    for p in 0..10u64 {
        expect_queued(core.enqueue(100 + p));
        // The consumer's turn: one contended attempt, then one with the lock.
        assert!(matches!(recv.poll(&mut core, false, waker), PollResult::PendingRetry));
        waker += 1;
        match recv.poll(&mut core, true, waker) {
            PollResult::Ready(m) => got.push(m),
            PollResult::PendingSuspended => {}
            _ => panic!("unexpected poll outcome"),
        }
        waker += 1;
    }
    // Drain whatever is still owed.
    loop {
        match recv.poll(&mut core, true, waker) {
            PollResult::Ready(m) => got.push(m),
            PollResult::PendingSuspended => break,
            _ => panic!("channel neither delivered nor suspended"),
        }
        waker += 1;
    }
    got.sort();
    let want: Vec<u64> = (100..110).collect();
    assert_eq!(got, want);
}

#[test]
fn fifo_from_one_producer() {
    // m1, m2, m3 enqueued with nothing interleaved come out in that order.
    let mut core: SharedCore<u64> = SharedCore::new();
    let mut recv: Receiver<u64> = Receiver::new();
    expect_queued(core.enqueue(1));
    expect_queued(core.enqueue(2));
    expect_queued(core.enqueue(3));
    assert_eq!(expect_ready(recv.poll(&mut core, true, 1)), 1);
    assert_eq!(expect_ready(recv.poll(&mut core, true, 2)), 2);
    assert_eq!(expect_ready(recv.poll(&mut core, true, 3)), 3);
}

#[test]
fn disconnect_is_terminal() {
    // Once Disconnected is observed, every further attempt observes it too,
    // whatever else happens in between.
    let mut core: SharedCore<u64> = SharedCore::new();
    let mut recv: Receiver<u64> = Receiver::new();
    core.finish();
    assert!(matches!(recv.poll(&mut core, true, 1), PollResult::Disconnected));
    assert!(matches!(recv.poll(&mut core, false, 2), PollResult::PendingRetry));
    assert!(matches!(core.enqueue(9), EnqueueResult::Refused(9)));
    core.finish();
    assert!(matches!(recv.poll(&mut core, true, 3), PollResult::Disconnected));
    assert!(matches!(recv.poll(&mut core, true, 4), PollResult::Disconnected));
}

#[test]
fn enqueue_refused_after_finish_returns_message() {
    let mut core: SharedCore<u64> = SharedCore::new();
    core.finish();
    match core.enqueue(77) {
        EnqueueResult::Refused(m) => assert_eq!(m, 77),
        EnqueueResult::Queued(_) => panic!("finished channel accepted a message"),
    }
}

#[test]
fn stale_wakeup_is_harmless() {
    // Two empty polls leave two registered wakers; one enqueue fires only
    // the older one. The younger waker is now stale: firing it re-polls a
    // consumer that is owed nothing, which just suspends again — no panic,
    // no duplicate delivery.
    let mut core: SharedCore<u64> = SharedCore::new();
    let mut recv: Receiver<u64> = Receiver::new();
    assert!(matches!(recv.poll(&mut core, true, 1), PollResult::PendingSuspended));
    assert!(matches!(recv.poll(&mut core, true, 2), PollResult::PendingSuspended));
    let fired = expect_queued(core.enqueue(5));
    assert_eq!(fired, Some(1));
    assert_eq!(expect_ready(recv.poll(&mut core, true, 3)), 5);
    // Waker 2 fires late: the spurious poll delivers nothing and suspends.
    assert!(matches!(recv.poll(&mut core, true, 4), PollResult::PendingSuspended));
}

#[test]
fn contention_only_delays_delivery() {
    // Lock contention is a busy retry, not a suspension: no waker is
    // registered, and a buffered message is delivered even under contention.
    let mut core: SharedCore<u64> = SharedCore::new();
    let mut recv: Receiver<u64> = Receiver::new();
    expect_queued(core.enqueue(11));
    expect_queued(core.enqueue(12));
    assert!(matches!(recv.poll(&mut core, false, 1), PollResult::PendingRetry));
    assert_eq!(expect_ready(recv.poll(&mut core, true, 2)), 11);
    // 12 sits in the local buffer: contention cannot keep it from the caller.
    assert_eq!(expect_ready(recv.poll(&mut core, false, 3)), 12);
    // After the retries, an enqueue still finds no stale registration.
    let fired = expect_queued(core.enqueue(13));
    assert_eq!(fired, None);
}

#[test]
fn finish_hands_back_registered_wakers() {
    let mut core: SharedCore<u64> = SharedCore::new();
    let mut recv: Receiver<u64> = Receiver::new();
    assert!(matches!(recv.poll(&mut core, true, 10), PollResult::PendingSuspended));
    assert!(matches!(recv.poll(&mut core, true, 11), PollResult::PendingSuspended));
    let fired = core.finish();
    assert_eq!(fired, vec![10, 11]);
    assert!(matches!(recv.poll(&mut core, true, 12), PollResult::Disconnected));
}

#[test]
fn future_wraps_one_receive() {
    let mut core: SharedCore<u64> = SharedCore::new();
    let recv: Receiver<u64> = Receiver::new();
    let mut fut = RecvFuture::new(recv);
    assert!(!fut.is_terminated());
    assert!(matches!(fut.poll(&mut core, true, 1), PollResult::PendingSuspended));
    expect_queued(core.enqueue(64));
    assert_eq!(expect_ready(fut.poll(&mut core, true, 2)), 64);
    let mut recv = fut.into_receiver();
    core.finish();
    assert!(matches!(recv.poll(&mut core, true, 3), PollResult::Disconnected));
    assert!(recv.is_terminated());
}

#[test]
fn future_termination_tracks_observed_mode() {
    let mut core: SharedCore<u64> = SharedCore::new();
    let mut recv: Receiver<u64> = Receiver::new();
    core.finish();
    // The mode has not been observed yet, so the adapter still reports live.
    assert!(!recv.is_terminated());
    assert!(matches!(recv.poll(&mut core, true, 1), PollResult::Disconnected));
    let fut = RecvFuture::new(recv);
    assert!(fut.is_terminated());
}

#[test]
fn stream_maps_disconnect_to_end() {
    let mut core: SharedCore<u64> = SharedCore::new();
    let mut recv: Receiver<u64> = Receiver::new();
    expect_queued(core.enqueue(21));
    match recv.poll_next(&mut core, true, 1) {
        NextResult::Item(m) => assert_eq!(m, 21),
        _ => panic!("expected an item"),
    }
    assert!(matches!(recv.poll_next(&mut core, false, 2), NextResult::PendingRetry));
    assert!(matches!(recv.poll_next(&mut core, true, 3), NextResult::PendingSuspended));
    core.finish();
    assert!(matches!(recv.poll_next(&mut core, true, 4), NextResult::End));
    assert!(recv.is_terminated());
}

#[test]
fn size_hint_counts_buffered_messages_only() {
    let mut core: SharedCore<u64> = SharedCore::new();
    let mut recv: Receiver<u64> = Receiver::new();
    assert_eq!(recv.size_hint(), (0, None));
    expect_queued(core.enqueue(1));
    expect_queued(core.enqueue(2));
    expect_queued(core.enqueue(3));
    // The shared queue is not part of the lower bound until it is drained.
    assert_eq!(recv.size_hint(), (0, None));
    assert_eq!(expect_ready(recv.poll(&mut core, true, 1)), 1);
    assert_eq!(recv.size_hint(), (2, None));
    assert_eq!(recv.pop_front(), Some(2));
    assert_eq!(recv.size_hint(), (1, None));
}

#[test]
fn pop_front_never_touches_the_core() {
    let mut core: SharedCore<u64> = SharedCore::new();
    let mut recv: Receiver<u64> = Receiver::new();
    expect_queued(core.enqueue(31));
    // Nothing buffered yet: pop_front cannot see the shared queue.
    assert_eq!(recv.pop_front(), None);
    assert_eq!(expect_ready(recv.poll(&mut core, true, 1)), 31);
    assert_eq!(recv.pop_front(), None);
}

#[test]
fn mode_reads_back() {
    let mut core: SharedCore<u64> = SharedCore::new();
    assert_eq!(core.read_mode(), Mode::Open);
    core.finish();
    assert_eq!(core.read_mode(), Mode::Finished);
}

#[test]
fn messages_survive_finish_until_drained() {
    // Finishing with messages still queued keeps them deliverable; only the
    // empty finished channel reports the disconnect.
    let mut core: SharedCore<u64> = SharedCore::new();
    let mut recv: Receiver<u64> = Receiver::new();
    expect_queued(core.enqueue(91));
    expect_queued(core.enqueue(92));
    core.finish();
    assert_eq!(expect_ready(recv.poll(&mut core, true, 1)), 91);
    assert_eq!(expect_ready(recv.poll(&mut core, true, 2)), 92);
    assert!(matches!(recv.poll(&mut core, true, 3), PollResult::Disconnected));
}
