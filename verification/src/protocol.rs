//! The shutdown protocol as a state machine.
//!
//! A coordinator keeps a one-way flag and a count of outstanding listener
//! handles. Here each operation on it (taking a handle, releasing one,
//! requesting shutdown) is one indivisible step on a [`State`], and the
//! decisions that the coordinator takes on the values it reads are executable
//! functions whose contracts are stated over the same definitions. What
//! holds of the steps is proved in [`laws`](crate::laws); what remains true
//! when the accesses of several callers interleave is proved in
//! [`interleaving`](crate::interleaving).

use core::task::Poll;
use vstd::prelude::*;

verus! {

/// One indivisible operation on a coordinator.
pub enum Event {
    /// A new listener handle is taken.
    Listen,
    /// The handle with this identity is released.
    Release(nat),
    /// Shutdown is requested.
    Trigger,
}

/// What a coordinator holds, together with the handles that account for it.
///
/// `counter` is the number that the coordinator keeps; `live` is the set of
/// handles that were handed out and not released yet. Handles are numbered in
/// the order in which they were taken, and `issued` is the next number.
pub struct State {
    pub in_progress: bool,
    pub counter: nat,
    pub live: Set<nat>,
    pub issued: nat,
}

/// The drain condition on the two values a coordinator keeps: shutdown has
/// begun and no handle is counted.
pub open spec fn drained_at(in_progress: bool, active: nat) -> bool {
    in_progress && active == 0
}

impl State {
    /// A coordinator before anything happened to it.
    pub open spec fn initial() -> State {
        State { in_progress: false, counter: 0, live: Set::empty(), issued: 0 }
    }

    /// The counter accounts for exactly the live handles, and every live
    /// handle was issued.
    pub open spec fn wf(self) -> bool {
        &&& self.live.finite()
        &&& self.counter == self.live.len()
        &&& forall|h: nat| self.live.contains(h) ==> h < self.issued
    }

    /// Whether `event` can happen in this state: only a live handle can be
    /// released.
    pub open spec fn enabled(self, event: Event) -> bool {
        match event {
            Event::Release(h) => self.live.contains(h),
            _ => true,
        }
    }

    /// The state after `event`.
    pub open spec fn step(self, event: Event) -> State {
        match event {
            Event::Listen => State {
                counter: self.counter + 1,
                live: self.live.insert(self.issued),
                issued: self.issued + 1,
                ..self
            },
            Event::Release(h) => State {
                counter: (self.counter - 1) as nat,
                live: self.live.remove(h),
                ..self
            },
            Event::Trigger => State { in_progress: true, ..self },
        }
    }

    /// Whether `event`, happening in this state, wakes those who wait for the
    /// drain. The rule reads the counter only, as the coordinator does.
    pub open spec fn wakes_drain(self, event: Event) -> bool {
        match event {
            Event::Listen => false,
            Event::Release(_) => self.counter > 0 && drained_at(
                self.in_progress,
                (self.counter - 1) as nat,
            ),
            Event::Trigger => drained_at(true, self.counter),
        }
    }

    /// Shutdown has begun and no handle is live.
    pub open spec fn drained(self) -> bool {
        self.in_progress && self.live.is_empty()
    }

    /// Whether a poll of a listener handle resolves in this state.
    pub open spec fn listener_resolves(self) -> bool {
        self.in_progress
    }

    /// Whether a poll of a drain waiter resolves in this state.
    pub open spec fn waiter_resolves(self) -> bool {
        drained_at(self.in_progress, self.counter)
    }

    /// Every event of `events` is enabled at the moment it happens.
    pub open spec fn admits(self, events: Seq<Event>) -> bool
        decreases events.len(),
    {
        events.len() > 0 ==> {
            &&& self.admits(events.drop_last())
            &&& self.run(events.drop_last()).enabled(events.last())
        }
    }

    /// The state after all of `events`, in order.
    pub open spec fn run(self, events: Seq<Event>) -> State
        decreases events.len(),
    {
        if events.len() == 0 {
            self
        } else {
            self.run(events.drop_last()).step(events.last())
        }
    }
}

/// Whether `event` wakes the listeners: a shutdown request does, nothing else.
pub open spec fn wakes_listeners(event: Event) -> bool {
    event is Trigger
}

/// `n` handles taken one after another.
pub open spec fn listens(n: nat) -> Seq<Event> {
    Seq::new(n, |i: int| Event::Listen)
}

/// The handles of `order` released one after another.
pub open spec fn releases(order: Seq<nat>) -> Seq<Event> {
    Seq::new(order.len(), |i: int| Event::Release(order[i]))
}

/// The eager check of a listener: it resolves if it resolved before or if
/// shutdown is seen to be in progress; otherwise it has to wait for the
/// broadcast.
pub fn listener_eager_check(resolved: bool, in_progress: bool) -> (ready: bool)
    ensures
        ready == (resolved || in_progress),
{
    resolved || in_progress
}

/// The eager check of a drain waiter on the two values read from the
/// coordinator.
pub fn drain_eager_check(in_progress: bool, active: usize) -> (ready: bool)
    ensures
        ready == drained_at(in_progress, active as nat),
{
    in_progress && active == 0
}

/// What a drain waiter does after it polled its subscription, given the
/// answer of the subscription and the flag and the counter as they were read
/// after that answer. The first part is what the poll returns: `Ready`
/// exactly if a wake has come and the drain condition holds of what was
/// read. A wake alone does not complete the waiter, since the coordinator
/// may have been left by the drain in the meantime. The second part says
/// whether the waiter has to subscribe anew and ask for another poll: it
/// has to exactly if a wake has come and the condition does not hold.
pub fn drain_check_after_wake(wake: Poll<()>, in_progress: bool, active: usize) -> (step: (
    Poll<()>,
    bool,
))
    ensures
        (step.0 is Ready) == (wake is Ready && drained_at(in_progress, active as nat)),
        step.1 == (wake is Ready && !drained_at(in_progress, active as nat)),
{
    match wake {
        Poll::Pending => (Poll::Pending, false),
        Poll::Ready(_) => {
            if drain_eager_check(in_progress, active) {
                (Poll::Ready(()), false)
            } else {
                (Poll::Pending, true)
            }
        },
    }
}

/// Whether a release has to wake the drain waiters, given the flag and the
/// count as it was before the release: it does if and only if the drain
/// condition holds of the count after it.
pub fn release_completes_drain(in_progress: bool, previous: usize) -> (wake: bool)
    ensures
        wake == (previous > 0 && drained_at(in_progress, (previous - 1) as nat)),
{
    in_progress && previous == 1
}

/// Whether a shutdown request has to wake the drain waiters, given the count
/// read after the flag was set.
pub fn trigger_completes_drain(active: usize) -> (wake: bool)
    ensures
        wake == drained_at(true, active as nat),
{
    active == 0
}

} // verus!
