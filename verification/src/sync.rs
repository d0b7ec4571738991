//! The primitives that the coordinator stands on, and what is taken on trust
//! of them.
//!
//! Nothing in this file is proved. The broadcast channels are tokio's
//! `Notify`; pinning, polling and waking are std's. None of these items says
//! anything of the values that come back: a coordinator is shared, and what
//! one caller finds another may have done a moment ago. None of them says
//! that a call cannot unwind either: a wake runs the wakers that the callers
//! of the polls handed in.

use crate::shutdown::ShutdownListener;
use crate::shutdown::Wait;
use core::future::Future;
use core::pin::Pin;
use core::task::Context;
use core::task::Poll;
use core::task::Waker;
use tokio::sync::futures::Notified;
use tokio::sync::Notify;
use vstd::prelude::*;

verus! {

/// `tokio::sync::Notify`, carried as an opaque value.
#[verifier::external_type_specification]
#[verifier::external_body]
pub struct ExNotify(Notify);

/// `tokio::sync::futures::Notified`, carried as an opaque value.
#[verifier::external_type_specification]
#[verifier::external_body]
pub struct ExNotified<'a>(Notified<'a>);

/// `core::task::Context`, carried as an opaque value.
#[verifier::external_type_specification]
#[verifier::external_body]
pub struct ExContext<'a>(Context<'a>);

/// `core::task::Waker`, carried as an opaque value.
#[verifier::external_type_specification]
#[verifier::external_body]
pub struct ExWaker(Waker);

/// `core::pin::Pin`, carried as an opaque value.
#[verifier::external_type_specification]
#[verifier::external_body]
#[verifier::reject_recursive_types(Ptr)]
pub struct ExPin<Ptr>(Pin<Ptr>);

/// `core::task::Poll`, with its two variants `Ready` and `Pending`.
#[verifier::external_type_specification]
#[verifier::reject_recursive_types(T)]
pub struct ExPoll<T>(Poll<T>);

/// `Context::waker` hands out the waker of the task that is being polled.
/// Nothing is claimed of it.
pub assume_specification<'a>[ Context::<'a>::waker ](cx: &Context<'a>) -> (waker: &'a Waker);

/// `Waker::wake_by_ref` asks the executor to poll the task again. Nothing is
/// claimed of the call.
pub assume_specification[ Waker::wake_by_ref ](waker: &Waker);

/// Calls `Notify::const_new`, which builds a channel that holds no permit
/// and has no waiter. Nothing is claimed of the value.
#[verifier::external_body]
pub(crate) fn new_notify() -> (notify: Notify) {
    Notify::const_new()
}

/// Calls `Notify::notify_waiters`, which wakes every `Notified` that was
/// created on this channel before the call and stores no permit for later
/// ones. Nothing is claimed of the call; in particular it runs the wakers
/// that are registered, and is not said to come back where one of them
/// panics.
#[verifier::external_body]
pub(crate) fn notify_waiters(notify: &Notify) {
    notify.notify_waiters()
}

/// Calls `Notify::notified`, and pins the subscription it returns on the
/// heap so that its owner stays movable. From its creation on the
/// subscription receives the wakeups of `notify_waiters`. Nothing is claimed
/// of the value.
#[verifier::external_body]
pub(crate) fn subscribe<'a>(notify: &'a Notify) -> (notified: Pin<Box<Notified<'a>>>) {
    Box::pin(notify.notified())
}

/// Calls the `Future::poll` of tokio's `Notified`. On a channel that is only
/// ever woken by `notify_waiters`, as both channels of a coordinator are, the
/// poll is ready once such a call came after the subscription was created,
/// and otherwise registers the waker of `cx`. Which of the two comes back
/// depends on what other callers did, so nothing is claimed of it.
#[verifier::external_body]
pub(crate) fn poll_notified<'a>(
    notified: &mut Pin<Box<Notified<'a>>>,
    cx: &mut Context<'_>,
) -> (wake: Poll<()>) {
    notified.as_mut().poll(cx)
}

/// Calls `Pin::get_mut` on a pinned listener. The listener keeps its
/// subscription behind a pointer, so it is `Unpin` and the call is safe.
/// Nothing is claimed of the reference.
#[verifier::external_body]
pub(crate) fn unpin_listener<'a>(pinned: Pin<&'a mut ShutdownListener>) -> (listener:
    &'a mut ShutdownListener) {
    Pin::get_mut(pinned)
}

/// Calls `Pin::get_mut` on a pinned drain waiter, which is `Unpin` for the
/// same reason as a listener. Nothing is claimed of the reference.
#[verifier::external_body]
pub(crate) fn unpin_waiter<'a, 'b>(pinned: Pin<&'a mut Wait<'b>>) -> (waiter: &'a mut Wait<'b>) {
    Pin::get_mut(pinned)
}

} // verus!
