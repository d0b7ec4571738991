//! The coordinator and the two futures built on it.

use crate::protocol::drain_check_after_wake;
use crate::protocol::drain_eager_check;
use crate::protocol::listener_eager_check;
use crate::protocol::release_completes_drain;
use crate::protocol::trigger_completes_drain;
use crate::sync::new_notify;
use crate::sync::notify_waiters;
use crate::sync::poll_notified;
use crate::sync::subscribe;
use crate::sync::unpin_listener;
use crate::sync::unpin_waiter;
use core::future::Future;
use core::pin::Pin;
use core::sync::atomic::AtomicBool;
use core::sync::atomic::AtomicUsize;
use core::sync::atomic::Ordering;
use core::task::Context;
use core::task::Poll;
use tokio::sync::futures::Notified;
use tokio::sync::Notify;
use vstd::prelude::*;

verus! {

/// A group of [`ShutdownListener`]s waiting for a shutdown signal.
///
/// The coordinator is shared by reference between any number of tasks and a
/// signal handler. Its flag goes from `false` to `true` once and never back;
/// its counter is the number of listeners that were created and not released
/// yet.
#[derive(Debug)]
pub struct Shutdown {
    in_progress: AtomicBool,
    counter: AtomicUsize,
    notify_shutdown: Notify,
    notify_done: Notify,
}

/// A future waiting for a shutdown signal, and the token of one unit of work
/// that the process has to wait for.
///
/// `ShutdownListener` completes once a shutdown signal has been received. All
/// later calls to `poll` complete immediately.
///
/// From its creation until [`release`](ShutdownListener::release) a listener
/// is counted, and [`Wait`] does not complete. Releasing wakes the tasks
/// that wait for the drain, and a wake runs their wakers; a destructor may
/// call only what cannot unwind, so the release is a call of its own and not
/// a destructor. A listener that is dropped without it stays counted.
#[must_use]
pub struct ShutdownListener {
    shutdown: &'static Shutdown,
    notified: Pin<Box<Notified<'static>>>,
    resolved: bool,
}

/// A future that completes once a shutdown signal has been received and all
/// [`ShutdownListener`]s have been released.
///
/// A wake tells the future that the drain was reached, not that it still
/// holds: after every wake the flag and the counter are read again, and the
/// future completes only on what it has read.
pub struct Wait<'a> {
    inner: &'a Shutdown,
    notified: Pin<Box<Notified<'a>>>,
}

impl Shutdown {
    /// Creates a coordinator on which shutdown has not been requested and
    /// which has no listener.
    pub fn new() -> (shutdown: Shutdown) {
        Shutdown {
            in_progress: AtomicBool::new(false),
            counter: AtomicUsize::new(0),
            notify_shutdown: new_notify(),
            notify_done: new_notify(),
        }
    }

    #[inline]
    fn inc(&self) {
        self.counter.fetch_add(1, Ordering::Acquire);
    }

    #[inline]
    fn dec(&self) {
        let previous: usize = self.counter.fetch_sub(1, Ordering::AcqRel);
        let in_progress: bool = self.in_progress.load(Ordering::Acquire);
        if release_completes_drain(in_progress, previous) {
            notify_waiters(&self.notify_done);
        }
    }

    /// Manually shuts down this `Shutdown` instance.
    ///
    /// Every listener that exists is woken, and so is every [`Wait`] if no
    /// listener is left. Calling this again has no further effect. The call
    /// is written for a signal handler: it stores to an atomic, reads one and
    /// wakes through tokio's `notify_waiters`, which allocates nothing and
    /// holds a mutex of its own for the time it takes to collect the wakers.
    #[inline]
    pub fn quit(&'static self) {
        self.in_progress.store(true, Ordering::Release);
        notify_waiters(&self.notify_shutdown);
        let active: usize = self.counter.load(Ordering::Acquire);
        if trigger_completes_drain(active) {
            notify_waiters(&self.notify_done);
        }
    }

    /// Creates a new [`ShutdownListener`] on this `Shutdown` instance.
    ///
    /// The listener is counted from this call on, until it is released.
    #[inline]
    pub fn listen(&'static self) -> (listener: ShutdownListener)
        ensures
            listener.coordinator() == *self,
            !listener.is_resolved(),
    {
        self.inc();
        ShutdownListener {
            shutdown: self,
            notified: subscribe(&self.notify_shutdown),
            resolved: false,
        }
    }

    /// Returns a future that completes once a shutdown signal has been
    /// received and all [`ShutdownListener`]s have been released.
    #[inline]
    pub fn wait(&self) -> (waiter: Wait<'_>)
        ensures
            waiter.coordinator() == *self,
    {
        Wait { inner: self, notified: subscribe(&self.notify_done) }
    }

    /// Returns `true` if a shutdown signal has been received yet.
    #[inline]
    pub fn is_in_progress(&self) -> (in_progress: bool) {
        self.in_progress.load(Ordering::Acquire)
    }

    /// Returns the number of listeners that are counted at the moment of the
    /// call.
    #[inline]
    pub fn active_count(&self) -> (active: usize) {
        self.counter.load(Ordering::Acquire)
    }
}

impl ShutdownListener {
    /// The coordinator that this listener was created on.
    pub closed spec fn coordinator(&self) -> Shutdown {
        *self.shutdown
    }

    /// Whether a poll of this listener has returned `Ready` before.
    pub closed spec fn is_resolved(&self) -> bool {
        self.resolved
    }

    /// Returns `true` if a shutdown signal has been received yet.
    ///
    /// Once this function returns `true`, all future calls will also return
    /// `true` and calls to `poll` will resolve immediately. The answer is the
    /// flag of the coordinator as it is read, whether or not this listener
    /// itself has resolved.
    #[inline]
    pub fn is_in_progress(&self) -> (in_progress: bool) {
        self.shutdown.is_in_progress()
    }

    /// The eager check of a poll, on the flag as it was read: the listener
    /// is resolved afterwards exactly if it was before or if shutdown is in
    /// progress, and says so.
    pub fn resolve_on(&mut self, in_progress: bool) -> (ready: bool)
        ensures
            ready == (old(self).is_resolved() || in_progress),
            final(self).is_resolved() == ready,
            final(self).coordinator() == old(self).coordinator(),
    {
        let ready: bool = listener_eager_check(self.resolved, in_progress);
        self.resolved = ready;
        ready
    }

    /// The end of a poll, on the answer of the subscription to the
    /// broadcast: the listener is resolved afterwards exactly if it was
    /// before or if the broadcast has come, and the poll is `Ready` exactly
    /// if the listener is resolved.
    pub fn resolve_on_wake(&mut self, wake: Poll<()>) -> (poll: Poll<()>)
        ensures
            final(self).is_resolved() == (old(self).is_resolved() || wake is Ready),
            (poll is Ready) == final(self).is_resolved(),
            !old(self).is_resolved() ==> poll == wake,
            final(self).coordinator() == old(self).coordinator(),
    {
        match wake {
            Poll::Ready(_) => {
                self.resolved = true;
                wake
            },
            Poll::Pending => {
                if self.resolved {
                    Poll::Ready(())
                } else {
                    wake
                }
            },
        }
    }

    /// Polls for the shutdown signal.
    ///
    /// The flag is read and checked before the subscription is polled, so
    /// that a signal that came between two polls is not missed: see
    /// [`resolve_on`](Self::resolve_on) for what the poll does on the flag it
    /// read, and [`resolve_on_wake`](Self::resolve_on_wake) for what it does
    /// on the answer of the subscription. A listener that has resolved stays
    /// resolved.
    pub fn poll_shutdown(&mut self, cx: &mut Context<'_>) -> (poll: Poll<()>)
        ensures
            old(self).is_resolved() ==> poll is Ready,
            final(self).is_resolved() == (poll is Ready),
            final(self).coordinator() == old(self).coordinator(),
    {
        let in_progress: bool = self.shutdown.is_in_progress();
        if self.resolve_on(in_progress) {
            return Poll::Ready(());
        }
        let wake = poll_notified(&mut self.notified, cx);
        self.resolve_on_wake(wake)
    }

    /// Releases the listener: it is counted no longer, and if it was the
    /// last one while shutdown is in progress, every [`Wait`] is woken.
    ///
    /// The listener may be released whether or not it has resolved, and
    /// whether or not it was ever polled. Taking it by value is what makes
    /// the release happen once.
    #[inline]
    pub fn release(self) {
        self.shutdown.dec();
    }
}

impl Future for ShutdownListener {
    type Output = ();

    #[inline]
    fn poll(self: Pin<&mut Self>, cx: &mut Context<'_>) -> Poll<()> {
        unpin_listener(self).poll_shutdown(cx)
    }
}

impl<'a> Wait<'a> {
    /// The coordinator that this future waits on.
    pub closed spec fn coordinator(&self) -> Shutdown {
        *self.inner
    }

    /// Polls for the drain: shutdown requested and no listener left.
    ///
    /// The flag and the counter are read, in this order, and checked by
    /// [`drain_eager_check`] before the subscription is polled, so that a
    /// drain that came between two polls is not missed. After the
    /// subscription has answered, both are read again, and
    /// [`drain_check_after_wake`] says on the answer and on what was read
    /// what the poll returns: `Ready` only if the drain condition holds of
    /// it. Where a wake has come and the condition does not hold, the future
    /// subscribes anew and asks to be polled again, so that the next poll
    /// checks once more and hands the waker to the new subscription.
    pub fn poll_drained(&mut self, cx: &mut Context<'_>) -> (poll: Poll<()>)
        ensures
            final(self).coordinator() == old(self).coordinator(),
    {
        let in_progress: bool = self.inner.is_in_progress();
        let active: usize = self.inner.active_count();
        if drain_eager_check(in_progress, active) {
            return Poll::Ready(());
        }
        let wake = poll_notified(&mut self.notified, cx);
        let in_progress: bool = self.inner.is_in_progress();
        let active: usize = self.inner.active_count();
        let (poll, renew) = drain_check_after_wake(wake, in_progress, active);
        if renew {
            self.notified = subscribe(&self.inner.notify_done);
            cx.waker().wake_by_ref();
        }
        poll
    }
}

impl<'a> Future for Wait<'a> {
    type Output = ();

    #[inline]
    fn poll(self: Pin<&mut Self>, cx: &mut Context<'_>) -> Poll<()> {
        unpin_waiter(self).poll_drained(cx)
    }
}

/// Requests shutdown on `shutdown`: the whole of what a signal handler does.
#[inline]
pub fn terminate(shutdown: &'static Shutdown) {
    shutdown.quit();
}

} // verus!
