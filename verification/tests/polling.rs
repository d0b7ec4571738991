use std::future::Future;
use std::pin::Pin;
use std::sync::atomic::{AtomicUsize, Ordering};
use std::sync::Arc;
use std::task::{Context, Poll, Wake, Waker};

use ragequit::terminate;
use ragequit::Shutdown;

struct CountingWaker {
    wakes: AtomicUsize,
}

impl Wake for CountingWaker {
    fn wake(self: Arc<Self>) {
        self.wakes.fetch_add(1, Ordering::SeqCst);
    }
}

fn counting_waker() -> (Arc<CountingWaker>, Waker) {
    let counter = Arc::new(CountingWaker { wakes: AtomicUsize::new(0) });
    let waker = Waker::from(counter.clone());
    (counter, waker)
}

fn coordinator() -> &'static Shutdown {
    Box::leak(Box::new(Shutdown::new()))
}

#[test]
fn listener_is_pending_until_quit() {
    let shutdown = coordinator();
    let (wakes, waker) = counting_waker();
    let mut cx = Context::from_waker(&waker);
    let mut listener = shutdown.listen();

    assert_eq!(listener.poll_shutdown(&mut cx), Poll::Pending);
    assert_eq!(listener.poll_shutdown(&mut cx), Poll::Pending);
    assert!(!listener.is_in_progress());
    assert_eq!(wakes.wakes.load(Ordering::SeqCst), 0);

    shutdown.quit();
    assert_eq!(wakes.wakes.load(Ordering::SeqCst), 1);
    assert!(listener.is_in_progress());
    assert_eq!(listener.poll_shutdown(&mut cx), Poll::Ready(()));
}

#[test]
fn every_listener_created_before_quit_resolves() {
    for n in [0usize, 1, 2, 7, 33] {
        let shutdown = coordinator();
        let waker = Waker::noop();
        let mut cx = Context::from_waker(waker);
        let mut listeners: Vec<_> = (0..n).map(|_| shutdown.listen()).collect();
        // Poll only every other listener before the signal: the others have
        // never subscribed a waker and must resolve all the same.
        for listener in listeners.iter_mut().step_by(2) {
            assert_eq!(listener.poll_shutdown(&mut cx), Poll::Pending);
        }
        shutdown.quit();
        for listener in listeners.iter_mut() {
            assert_eq!(listener.poll_shutdown(&mut cx), Poll::Ready(()));
        }
        assert_eq!(shutdown.active_count(), n);
    }
}

#[test]
fn resolved_listener_stays_resolved() {
    let shutdown = coordinator();
    let waker = Waker::noop();
    let mut cx = Context::from_waker(waker);
    let mut listener = shutdown.listen();
    shutdown.quit();
    for _ in 0..5 {
        assert_eq!(listener.poll_shutdown(&mut cx), Poll::Ready(()));
        assert!(listener.is_in_progress());
    }
    assert_eq!(Pin::new(&mut listener).poll(&mut cx), Poll::Ready(()));
    assert_eq!(shutdown.active_count(), 1);
}

#[test]
fn listener_created_after_quit_resolves_at_first_poll() {
    let shutdown = coordinator();
    let (wakes, waker) = counting_waker();
    let mut cx = Context::from_waker(&waker);
    shutdown.quit();
    let mut listener = shutdown.listen();
    assert!(listener.is_in_progress());
    assert_eq!(listener.poll_shutdown(&mut cx), Poll::Ready(()));
    assert_eq!(wakes.wakes.load(Ordering::SeqCst), 0);
    assert_eq!(shutdown.active_count(), 1);
}

#[test]
fn quit_twice_is_quit_once() {
    let shutdown = coordinator();
    let (wakes, waker) = counting_waker();
    let mut cx = Context::from_waker(&waker);
    let mut listener = shutdown.listen();
    assert_eq!(listener.poll_shutdown(&mut cx), Poll::Pending);

    shutdown.quit();
    assert!(shutdown.is_in_progress());
    assert_eq!(shutdown.active_count(), 1);
    assert_eq!(wakes.wakes.load(Ordering::SeqCst), 1);

    shutdown.quit();
    shutdown.quit();
    assert!(shutdown.is_in_progress());
    assert_eq!(shutdown.active_count(), 1);
    assert_eq!(wakes.wakes.load(Ordering::SeqCst), 1);
    assert_eq!(listener.poll_shutdown(&mut cx), Poll::Ready(()));

    let mut waiter = shutdown.wait();
    assert_eq!(waiter.poll_drained(&mut cx), Poll::Pending);
    listener.release();
    assert_eq!(shutdown.active_count(), 0);
    assert_eq!(waiter.poll_drained(&mut cx), Poll::Ready(()));
}

#[test]
fn terminate_requests_shutdown() {
    let shutdown = coordinator();
    assert!(!shutdown.is_in_progress());
    terminate(shutdown);
    assert!(shutdown.is_in_progress());
    terminate(shutdown);
    assert!(shutdown.is_in_progress());
}

#[test]
fn wait_is_pending_before_quit_even_without_listeners() {
    let shutdown = coordinator();
    let (wakes, waker) = counting_waker();
    let mut cx = Context::from_waker(&waker);
    let mut waiter = shutdown.wait();
    assert_eq!(waiter.poll_drained(&mut cx), Poll::Pending);
    assert_eq!(wakes.wakes.load(Ordering::SeqCst), 0);

    shutdown.quit();
    assert_eq!(wakes.wakes.load(Ordering::SeqCst), 1);
    assert_eq!(waiter.poll_drained(&mut cx), Poll::Ready(()));
}

#[test]
fn wait_is_pending_while_a_listener_lives() {
    let shutdown = coordinator();
    let (wakes, waker) = counting_waker();
    let mut cx = Context::from_waker(&waker);
    let first = shutdown.listen();
    let second = shutdown.listen();
    let mut waiter = shutdown.wait();
    assert_eq!(waiter.poll_drained(&mut cx), Poll::Pending);

    shutdown.quit();
    assert_eq!(waiter.poll_drained(&mut cx), Poll::Pending);
    first.release();
    assert_eq!(waiter.poll_drained(&mut cx), Poll::Pending);
    assert_eq!(wakes.wakes.load(Ordering::SeqCst), 0);

    second.release();
    assert_eq!(wakes.wakes.load(Ordering::SeqCst), 1);
    assert_eq!(waiter.poll_drained(&mut cx), Poll::Ready(()));
}

#[test]
fn release_before_quit_does_not_wake_the_drain() {
    let shutdown = coordinator();
    let (wakes, waker) = counting_waker();
    let mut cx = Context::from_waker(&waker);
    let listener = shutdown.listen();
    let mut waiter = shutdown.wait();
    assert_eq!(waiter.poll_drained(&mut cx), Poll::Pending);

    listener.release();
    assert_eq!(shutdown.active_count(), 0);
    assert_eq!(wakes.wakes.load(Ordering::SeqCst), 0);
    assert_eq!(waiter.poll_drained(&mut cx), Poll::Pending);

    shutdown.quit();
    assert_eq!(wakes.wakes.load(Ordering::SeqCst), 1);
    assert_eq!(waiter.poll_drained(&mut cx), Poll::Ready(()));
}

#[test]
fn listener_released_without_a_poll_still_completes_the_drain() {
    let shutdown = coordinator();
    let (wakes, waker) = counting_waker();
    let mut cx = Context::from_waker(&waker);
    let never_polled = shutdown.listen();
    let mut waiter = shutdown.wait();
    shutdown.quit();
    assert_eq!(waiter.poll_drained(&mut cx), Poll::Pending);

    never_polled.release();
    assert_eq!(wakes.wakes.load(Ordering::SeqCst), 1);
    assert_eq!(waiter.poll_drained(&mut cx), Poll::Ready(()));
}

#[test]
fn wait_created_after_the_drain_resolves_at_first_poll() {
    let shutdown = coordinator();
    let waker = Waker::noop();
    let mut cx = Context::from_waker(waker);
    let listener = shutdown.listen();
    shutdown.quit();
    listener.release();
    let mut waiter = shutdown.wait();
    assert_eq!(Pin::new(&mut waiter).poll(&mut cx), Poll::Ready(()));
}

#[test]
fn listener_taken_after_the_drain_holds_the_next_wait() {
    let shutdown = coordinator();
    let (wakes, waker) = counting_waker();
    let mut cx = Context::from_waker(&waker);
    shutdown.quit();
    let mut early = shutdown.wait();
    assert_eq!(early.poll_drained(&mut cx), Poll::Ready(()));

    let late = shutdown.listen();
    assert_eq!(shutdown.active_count(), 1);
    let mut waiter = shutdown.wait();
    assert_eq!(waiter.poll_drained(&mut cx), Poll::Pending);
    assert_eq!(wakes.wakes.load(Ordering::SeqCst), 0);
    late.release();
    assert_eq!(wakes.wakes.load(Ordering::SeqCst), 1);
    assert_eq!(waiter.poll_drained(&mut cx), Poll::Ready(()));
}

#[test]
fn basic_round_trip_with_quit_last() {
    let shutdown = coordinator();
    let waker = Waker::noop();
    let mut cx = Context::from_waker(waker);
    let h1 = shutdown.listen();
    let h2 = shutdown.listen();
    assert_eq!(shutdown.active_count(), 2);
    let mut waiter = shutdown.wait();
    h2.release();
    assert_eq!(shutdown.active_count(), 1);
    h1.release();
    assert_eq!(shutdown.active_count(), 0);
    assert_eq!(waiter.poll_drained(&mut cx), Poll::Pending);
    shutdown.quit();
    assert_eq!(waiter.poll_drained(&mut cx), Poll::Ready(()));
}

#[test]
fn basic_round_trip_with_quit_first() {
    let shutdown = coordinator();
    let waker = Waker::noop();
    let mut cx = Context::from_waker(waker);
    let h1 = shutdown.listen();
    let h2 = shutdown.listen();
    assert_eq!(shutdown.active_count(), 2);
    shutdown.quit();
    let mut waiter = shutdown.wait();
    assert_eq!(waiter.poll_drained(&mut cx), Poll::Pending);
    h2.release();
    assert_eq!(shutdown.active_count(), 1);
    assert_eq!(waiter.poll_drained(&mut cx), Poll::Pending);
    h1.release();
    assert_eq!(shutdown.active_count(), 0);
    assert_eq!(waiter.poll_drained(&mut cx), Poll::Ready(()));
}

#[test]
fn awaiting_tasks_resolve_and_release() {
    let shutdown = coordinator();
    let runtime = tokio::runtime::Builder::new_current_thread().build().unwrap();
    runtime.block_on(async move {
        let workers: Vec<_> = (0..4)
            .map(|_| {
                let mut listener = shutdown.listen();
                tokio::task::spawn(async move {
                    (&mut listener).await;
                    assert!(listener.is_in_progress());
                    listener.release();
                })
            })
            .collect();
        assert_eq!(shutdown.active_count(), 4);
        tokio::task::spawn(async move {
            shutdown.quit();
        });
        shutdown.wait().await;
        assert_eq!(shutdown.active_count(), 0);
        for worker in workers {
            worker.await.unwrap();
        }
    });
}

#[test]
fn woken_waiter_reads_again_and_stays_pending_behind_a_new_listener() {
    let shutdown = coordinator();
    let (wakes, waker) = counting_waker();
    let mut cx = Context::from_waker(&waker);
    let mut waiter = shutdown.wait();
    assert_eq!(waiter.poll_drained(&mut cx), Poll::Pending);

    // The request finds no listener and wakes the waiter.
    shutdown.quit();
    assert_eq!(wakes.wakes.load(Ordering::SeqCst), 1);

    // Before the waiter is polled again, a listener is taken.
    let late = shutdown.listen();
    assert_eq!(shutdown.active_count(), 1);
    assert_eq!(waiter.poll_drained(&mut cx), Poll::Pending);
    // The waiter has asked to be polled again.
    assert_eq!(wakes.wakes.load(Ordering::SeqCst), 2);
    assert_eq!(waiter.poll_drained(&mut cx), Poll::Pending);
    assert_eq!(wakes.wakes.load(Ordering::SeqCst), 2);

    late.release();
    assert_eq!(wakes.wakes.load(Ordering::SeqCst), 3);
    assert_eq!(waiter.poll_drained(&mut cx), Poll::Ready(()));
}

#[test]
fn woken_waiter_resolves_when_the_drain_still_holds() {
    let shutdown = coordinator();
    let (wakes, waker) = counting_waker();
    let mut cx = Context::from_waker(&waker);
    let listener = shutdown.listen();
    shutdown.quit();
    let mut waiter = shutdown.wait();
    assert_eq!(waiter.poll_drained(&mut cx), Poll::Pending);
    listener.release();
    assert_eq!(wakes.wakes.load(Ordering::SeqCst), 1);
    assert_eq!(Pin::new(&mut waiter).poll(&mut cx), Poll::Ready(()));
    assert_eq!(wakes.wakes.load(Ordering::SeqCst), 1);
}

#[test]
fn resolve_on_follows_the_flag_and_latches() {
    let shutdown = coordinator();
    let mut listener = shutdown.listen();
    assert!(!listener.resolve_on(false));
    assert!(!listener.resolve_on(false));
    assert!(listener.resolve_on(true));
    assert!(listener.resolve_on(false));
    // The query answers for the coordinator, not for the handle.
    assert!(!listener.is_in_progress());
    let waker = Waker::noop();
    let mut cx = Context::from_waker(waker);
    assert_eq!(listener.poll_shutdown(&mut cx), Poll::Ready(()));
    listener.release();
}

#[test]
fn resolve_on_wake_follows_the_subscription_and_latches() {
    let shutdown = coordinator();
    let mut listener = shutdown.listen();
    assert_eq!(listener.resolve_on_wake(Poll::Pending), Poll::Pending);
    assert!(!listener.resolve_on(false));
    assert_eq!(listener.resolve_on_wake(Poll::Ready(())), Poll::Ready(()));
    assert_eq!(listener.resolve_on_wake(Poll::Pending), Poll::Ready(()));
    assert!(listener.resolve_on(false));
    listener.release();
}

#[test]
fn fresh_listener_without_a_request_is_pending() {
    let shutdown = coordinator();
    let (wakes, waker) = counting_waker();
    let mut cx = Context::from_waker(&waker);
    let mut listener = shutdown.listen();
    assert_eq!(Pin::new(&mut listener).poll(&mut cx), Poll::Pending);
    assert_eq!(wakes.wakes.load(Ordering::SeqCst), 0);
    listener.release();
    assert_eq!(shutdown.active_count(), 0);
}
