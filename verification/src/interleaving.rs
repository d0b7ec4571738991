//! The protocol at the grain of single atomic accesses.
//!
//! A coordinator is shared, and neither a release nor a shutdown request is
//! one access: a release lowers the counter and reads the flag afterwards; a
//! request sets the flag, wakes the listeners and reads the counter
//! afterwards; and accesses of other callers may fall in between. This
//! module follows every access on its own, counts the wakes that are made,
//! and proves what survives the interleaving: a future whose check failed is
//! woken afterwards once its condition has come to hold; no check resolves
//! too early; and a wake by a release is on time unless a new listener
//! overtook it.
//!
//! A subscription to a broadcast is ready once a wake was made after it was
//! taken. Both futures take theirs before they check, so "a wake was made
//! after the check failed" is what they need in order not to sleep on. A
//! wake of the drain waiters may come early, so a drain waiter does not
//! complete on a wake: it reads the flag and the counter again.

use crate::protocol::drained_at;
use crate::protocol::Event;
use crate::protocol::State;
use vstd::multiset::Multiset;
use vstd::prelude::*;

verus! {

/// One atomic access to a coordinator.
pub enum Access {
    /// A listener is created: the counter is raised by one.
    Add,
    /// First half of a release: the counter is lowered by one, and the value
    /// it held before is kept for the second half.
    Sub,
    /// Second half of a release that read the given value: the flag is read,
    /// and the drain waiters are woken or not.
    Decide(nat),
    /// First part of a shutdown request: the flag is set.
    Store,
    /// Second part of a shutdown request: the listeners are woken.
    Wake,
    /// Last part of a shutdown request: the counter is read, and the drain
    /// waiters are woken or not.
    Load,
}

/// The two values of a coordinator, the operations that are under way, and
/// the wakes that were made.
pub struct Shared {
    pub in_progress: bool,
    pub counter: nat,
    /// The values read by the releases that have lowered the counter and not
    /// read the flag yet.
    pub releasing: Multiset<nat>,
    /// The number of shutdown requests that have set the flag and not woken
    /// the listeners yet.
    pub waking: nat,
    /// The number of shutdown requests that have woken the listeners and
    /// not read the counter yet.
    pub loading: nat,
    /// The number of wakes of the listeners so far.
    pub listener_wakes: nat,
    /// The number of wakes of the drain waiters so far.
    pub drain_wakes: nat,
    /// The number of wakes of the drain waiters at the last moment at which
    /// the coordinator was not drained.
    pub drain_mark: nat,
}

impl Shared {
    /// A coordinator before anything happened to it.
    pub open spec fn initial() -> Shared {
        Shared {
            in_progress: false,
            counter: 0,
            releasing: Multiset::empty(),
            waking: 0,
            loading: 0,
            listener_wakes: 0,
            drain_wakes: 0,
            drain_mark: 0,
        }
    }

    /// Shutdown has begun and no listener is counted.
    pub open spec fn drained(self) -> bool {
        drained_at(self.in_progress, self.counter)
    }

    /// The drain waiters were woken at a moment since which the coordinator
    /// has been drained without a break.
    pub open spec fn announced(self) -> bool {
        self.drain_wakes > self.drain_mark
    }

    /// No operation is under way.
    pub open spec fn at_rest(self) -> bool {
        self.waking == 0 && self.loading == 0 && self.releasing.len() == 0
    }

    /// Whether `access` can happen: a release needs a listener that is
    /// counted, and a later part of an operation needs the part before it.
    pub open spec fn enabled(self, access: Access) -> bool {
        match access {
            Access::Add => true,
            Access::Sub => self.counter > 0,
            Access::Decide(previous) => self.releasing.count(previous) > 0,
            Access::Store => true,
            Access::Wake => self.waking > 0,
            Access::Load => self.loading > 0,
        }
    }

    /// Whether `access` wakes the drain waiters. The two rules are those of
    /// [`release_completes_drain`](crate::protocol::release_completes_drain)
    /// and [`trigger_completes_drain`](crate::protocol::trigger_completes_drain).
    pub open spec fn wakes_drain(self, access: Access) -> bool {
        match access {
            Access::Decide(previous) => previous > 0 && drained_at(
                self.in_progress,
                (previous - 1) as nat,
            ),
            Access::Load => drained_at(true, self.counter),
            _ => false,
        }
    }

    /// The flag, the counter and the operations under way after `access`.
    pub open spec fn advance(self, access: Access) -> Shared {
        match access {
            Access::Add => Shared { counter: self.counter + 1, ..self },
            Access::Sub => Shared {
                counter: (self.counter - 1) as nat,
                releasing: self.releasing.insert(self.counter),
                ..self
            },
            Access::Decide(previous) => Shared {
                releasing: self.releasing.remove(previous),
                ..self
            },
            Access::Store => Shared { in_progress: true, waking: self.waking + 1, ..self },
            Access::Wake => Shared {
                waking: (self.waking - 1) as nat,
                loading: self.loading + 1,
                listener_wakes: self.listener_wakes + 1,
                ..self
            },
            Access::Load => Shared { loading: (self.loading - 1) as nat, ..self },
        }
    }

    /// The state after `access`: the flag, the counter and the operations
    /// under way as [`advance`](Self::advance) gives them, one more wake of
    /// the drain waiters if the access makes one, and the mark moved up to
    /// the wakes made if the coordinator is not drained afterwards.
    pub open spec fn step(self, access: Access) -> Shared {
        let next = self.advance(access);
        let wakes = if self.wakes_drain(access) {
            self.drain_wakes + 1
        } else {
            self.drain_wakes
        };
        Shared {
            drain_wakes: wakes,
            drain_mark: if next.drained() {
                self.drain_mark
            } else {
                wakes
            },
            ..next
        }
    }

    /// Every access of `accesses` is enabled at the moment it happens.
    pub open spec fn admits(self, accesses: Seq<Access>) -> bool
        decreases accesses.len(),
    {
        accesses.len() > 0 ==> {
            &&& self.admits(accesses.drop_last())
            &&& self.run(accesses.drop_last()).enabled(accesses.last())
        }
    }

    /// The state after all of `accesses`, in order.
    pub open spec fn run(self, accesses: Seq<Access>) -> Shared
        decreases accesses.len(),
    {
        if accesses.len() == 0 {
            self
        } else {
            self.run(accesses.drop_last()).step(accesses.last())
        }
    }

    /// What holds in every state that can be reached: a request under way
    /// has set the flag; a release under way read at least one; the
    /// listeners were woken only with the flag set, and where they have not
    /// been woken yet a request is about to; the mark is up to date while
    /// the coordinator is not drained; and a drain that is not announced yet
    /// has an operation under way that will announce it.
    pub open spec fn inv(self) -> bool {
        &&& self.waking > 0 || self.loading > 0 ==> self.in_progress
        &&& self.releasing.count(0) == 0
        &&& !self.in_progress ==> self.listener_wakes == 0
        &&& self.in_progress && self.listener_wakes == 0 ==> self.waking > 0
        &&& self.drain_mark <= self.drain_wakes
        &&& !self.drained() ==> self.drain_mark == self.drain_wakes
        &&& self.drained() && !self.announced() ==> self.waking > 0 || self.loading > 0
            || self.releasing.count(1) > 0
    }

    /// The flag and the counter are those of the state `whole` of the
    /// protocol.
    pub open spec fn agrees_with(self, whole: State) -> bool {
        self.in_progress == whole.in_progress && self.counter == whole.counter
    }
}

/// A coordinator starts at rest, with no wake made, and what holds in every
/// reachable state holds at the start.
pub proof fn lemma_initial_inv()
    ensures
        Shared::initial().inv(),
        Shared::initial().at_rest(),
        !Shared::initial().in_progress,
        !Shared::initial().drained(),
{
}

/// What holds in every reachable state is kept by every access.
pub proof fn lemma_step_preserves_inv(s: Shared, access: Access)
    requires
        s.inv(),
        s.enabled(access),
    ensures
        s.step(access).inv(),
{
}

/// What holds in every reachable state holds after any accesses, in
/// whatever order they interleave.
pub proof fn lemma_run_preserves_inv(s: Shared, accesses: Seq<Access>)
    requires
        s.inv(),
        s.admits(accesses),
    ensures
        s.run(accesses).inv(),
    decreases accesses.len(),
{
    if accesses.len() > 0 {
        lemma_run_preserves_inv(s, accesses.drop_last());
        lemma_step_preserves_inv(s.run(accesses.drop_last()), accesses.last());
    }
}

/// Wakes are only ever added, and the mark never falls.
pub proof fn lemma_wakes_only_grow(s: Shared, accesses: Seq<Access>)
    requires
        s.inv(),
        s.admits(accesses),
    ensures
        s.run(accesses).listener_wakes >= s.listener_wakes,
        s.run(accesses).drain_wakes >= s.drain_wakes,
        s.run(accesses).drain_mark >= s.drain_mark,
    decreases accesses.len(),
{
    if accesses.len() > 0 {
        lemma_wakes_only_grow(s, accesses.drop_last());
        lemma_run_preserves_inv(s, accesses.drop_last());
    }
}

/// The flag never goes back, whatever accesses follow.
pub proof fn lemma_flag_is_permanent(s: Shared, accesses: Seq<Access>)
    requires
        s.in_progress,
    ensures
        s.run(accesses).in_progress,
    decreases accesses.len(),
{
    if accesses.len() > 0 {
        lemma_flag_is_permanent(s, accesses.drop_last());
    }
}

/// No wakeup of a listener is missed. Take a moment at which shutdown is
/// not in progress, such as the moment at which the eager check of a
/// listener failed. Whatever accesses follow and however they interleave:
/// once every operation has finished, if shutdown is in progress, the
/// listeners were woken after that moment.
pub proof fn lemma_listener_is_woken(s: Shared, later: Seq<Access>)
    requires
        s.inv(),
        !s.in_progress,
        s.admits(later),
    ensures
        ({
            let t = s.run(later);
            t.at_rest() && t.in_progress ==> t.listener_wakes > s.listener_wakes
        }),
{
    lemma_run_preserves_inv(s, later);
}

/// No wakeup of a drain waiter is missed. Take a moment at which the
/// coordinator is not drained, such as the moment at which the eager check
/// of a drain waiter failed. Whatever accesses follow and however they
/// interleave: once every operation has finished, if the coordinator is
/// drained, the drain waiters were woken after that moment, and at a moment
/// since which the coordinator has been drained without a break.
pub proof fn lemma_waiter_is_woken(s: Shared, later: Seq<Access>)
    requires
        s.inv(),
        !s.drained(),
        s.admits(later),
    ensures
        ({
            let t = s.run(later);
            t.at_rest() && t.drained() ==> t.announced() && t.drain_wakes > s.drain_wakes
        }),
{
    lemma_run_preserves_inv(s, later);
    lemma_wakes_only_grow(s, later);
}

/// A wake of the listeners is on time: it comes after the flag was set, so
/// a listener that is woken finds shutdown in progress at its next poll and
/// at every later one, whatever happened in between.
pub proof fn lemma_listener_wake_is_sound(s: Shared, later: Seq<Access>)
    requires
        s.inv(),
        s.enabled(Access::Wake),
    ensures
        s.in_progress,
        s.step(Access::Wake).run(later).in_progress,
{
    lemma_flag_is_permanent(s.step(Access::Wake), later);
}

/// A check of a drain waiter is sound, the eager one as well as the one
/// after a wake. It reads the flag first and the counter afterwards;
/// whatever happens between the two reads, if the check resolves, the
/// coordinator is drained at the moment of the second read.
pub proof fn lemma_drain_check_is_sound(s: Shared, between: Seq<Access>)
    ensures
        drained_at(s.in_progress, s.run(between).counter) ==> s.run(between).drained(),
{
    if s.in_progress {
        lemma_flag_is_permanent(s, between);
    }
}

/// A wake by a shutdown request is on time: the coordinator is drained at
/// the moment the request reads the counter and wakes.
pub proof fn lemma_request_wake_is_sound(s: Shared)
    requires
        s.inv(),
        s.enabled(Access::Load),
    ensures
        s.wakes_drain(Access::Load) ==> s.drained() && s.step(Access::Load).announced(),
{
}

/// As long as no listener is created, the counter does not rise.
pub proof fn lemma_counter_falls_without_add(s: Shared, accesses: Seq<Access>)
    requires
        s.admits(accesses),
        forall|i: int| 0 <= i < accesses.len() ==> !(#[trigger] accesses[i] is Add),
    ensures
        s.run(accesses).counter <= s.counter,
    decreases accesses.len(),
{
    if accesses.len() > 0 {
        let shorter = accesses.drop_last();
        assert forall|i: int| 0 <= i < shorter.len() implies !(#[trigger] shorter[i] is Add) by {
            assert(shorter[i] == accesses[i]);
        }
        lemma_counter_falls_without_add(s, shorter);
        let last = accesses[accesses.len() - 1];
        assert(!(last is Add));
        assert(accesses.last() == last);
        assert(s.run(shorter).step(last).counter <= s.run(shorter).counter);
    }
}

/// A wake by a release is on time if no listener was created between its
/// two halves: whatever else happened in between, if the release wakes the
/// drain waiters, the coordinator is drained at that moment.
pub proof fn lemma_release_wake_is_sound(s: Shared, between: Seq<Access>)
    requires
        s.enabled(Access::Sub),
        s.step(Access::Sub).admits(between),
        forall|i: int| 0 <= i < between.len() ==> !(#[trigger] between[i] is Add),
    ensures
        ({
            let t = s.step(Access::Sub).run(between);
            t.wakes_drain(Access::Decide(s.counter)) ==> t.drained()
        }),
{
    lemma_counter_falls_without_add(s.step(Access::Sub), between);
}

/// The condition above is needed. A release lowers the counter to zero; a
/// listener is created and shutdown is requested before the release reads
/// the flag; the release then wakes the drain waiters although a listener is
/// counted. This is why a drain waiter that is woken reads the flag and the
/// counter again, and completes only on what it has read.
pub proof fn lemma_release_overtaken_by_listen_wakes_early()
    ensures
        ({
            let before = seq![
                Access::Add,
                Access::Sub,
                Access::Add,
                Access::Store,
                Access::Wake,
                Access::Load,
            ];
            let s = Shared::initial().run(before);
            &&& Shared::initial().admits(before)
            &&& s.enabled(Access::Decide(1))
            &&& s.wakes_drain(Access::Decide(1))
            &&& s.counter == 1
            &&& !s.drained()
        }),
{
    let a0 = Shared::initial();
    let t0 = Seq::<Access>::empty();
    let t1 = seq![Access::Add];
    let t2 = seq![Access::Add, Access::Sub];
    let t3 = seq![Access::Add, Access::Sub, Access::Add];
    let t4 = seq![Access::Add, Access::Sub, Access::Add, Access::Store];
    let t5 = seq![Access::Add, Access::Sub, Access::Add, Access::Store, Access::Wake];
    let t6 = seq![
        Access::Add,
        Access::Sub,
        Access::Add,
        Access::Store,
        Access::Wake,
        Access::Load,
    ];
    assert(t1.drop_last() =~= t0 && t1.last() == Access::Add);
    assert(t2.drop_last() =~= t1 && t2.last() == Access::Sub);
    assert(t3.drop_last() =~= t2 && t3.last() == Access::Add);
    assert(t4.drop_last() =~= t3 && t4.last() == Access::Store);
    assert(t5.drop_last() =~= t4 && t5.last() == Access::Wake);
    assert(t6.drop_last() =~= t5 && t6.last() == Access::Load);
    let a1 = a0.step(Access::Add);
    let a2 = a1.step(Access::Sub);
    let a3 = a2.step(Access::Add);
    let a4 = a3.step(Access::Store);
    let a5 = a4.step(Access::Wake);
    let a6 = a5.step(Access::Load);
    assert(a0.run(t0) == a0 && a0.admits(t0));
    assert(a0.run(t1) == a1 && a0.admits(t1));
    assert(a0.run(t2) == a2 && a0.admits(t2));
    assert(a0.run(t3) == a3 && a0.admits(t3));
    assert(a0.run(t4) == a4 && a0.admits(t4));
    assert(a0.run(t5) == a5 && a0.admits(t5));
    assert(a0.run(t6) == a6 && a0.admits(t6));
}

/// An operation whose accesses are not interleaved with others is one step
/// of the protocol: it leaves the flag and the counter as that step does,
/// wakes the drain waiters exactly if that step does, and wakes the
/// listeners exactly if it is a shutdown request.
pub proof fn lemma_uninterrupted_operation_is_a_step(s: Shared, whole: State, handle: nat)
    requires
        s.agrees_with(whole),
        whole.wf(),
    ensures
        s.step(Access::Add).agrees_with(whole.step(Event::Listen)),
        s.step(Access::Add).drain_wakes == s.drain_wakes,
        s.step(Access::Add).listener_wakes == s.listener_wakes,
        whole.enabled(Event::Release(handle)) ==> ({
            let lowered = s.step(Access::Sub);
            let released = lowered.step(Access::Decide(s.counter));
            &&& s.enabled(Access::Sub)
            &&& lowered.enabled(Access::Decide(s.counter))
            &&& released.agrees_with(whole.step(Event::Release(handle)))
            &&& released.listener_wakes == s.listener_wakes
            &&& (released.drain_wakes > s.drain_wakes) == whole.wakes_drain(
                Event::Release(handle),
            )
        }),
        ({
            let stored = s.step(Access::Store);
            let woken = stored.step(Access::Wake);
            let requested = woken.step(Access::Load);
            &&& stored.enabled(Access::Wake)
            &&& woken.enabled(Access::Load)
            &&& requested.agrees_with(whole.step(Event::Trigger))
            &&& requested.listener_wakes > s.listener_wakes
            &&& (requested.drain_wakes > s.drain_wakes) == whole.wakes_drain(Event::Trigger)
        }),
{
}

} // verus!
