//! What holds of the shutdown protocol, proved over [`State`].

use crate::protocol::listens;
use crate::protocol::releases;
use crate::protocol::wakes_listeners;
use crate::protocol::Event;
use crate::protocol::State;
use vstd::prelude::*;

verus! {

/// Running two traces one after the other is running their concatenation,
/// and the concatenation is admitted exactly when the first trace is
/// admitted and the second is admitted where the first ends.
pub proof fn lemma_run_concat(s: State, first: Seq<Event>, second: Seq<Event>)
    ensures
        s.run(first + second) == s.run(first).run(second),
        s.admits(first + second) == (s.admits(first) && s.run(first).admits(second)),
    decreases second.len(),
{
    if second.len() == 0 {
        assert(first + second =~= first);
    } else {
        assert((first + second).drop_last() =~= first + second.drop_last());
        assert((first + second).last() == second.last());
        lemma_run_concat(s, first, second.drop_last());
    }
}

/// A coordinator starts with no handle counted, not shutting down, and
/// well formed.
pub proof fn lemma_initial_is_wf()
    ensures
        State::initial().wf(),
        State::initial().counter == 0,
        !State::initial().in_progress,
        !State::initial().drained(),
{
}

/// The counter equals the number of live handles after every step that can
/// happen, if it did before.
pub proof fn lemma_step_preserves_wf(s: State, event: Event)
    requires
        s.wf(),
        s.enabled(event),
    ensures
        s.step(event).wf(),
{
}

/// The counter equals the number of live handles in every state that a
/// coordinator can reach: whatever was taken, released and requested, in
/// whatever order.
pub proof fn lemma_counter_counts_live_handles(s: State, events: Seq<Event>)
    requires
        s.wf(),
        s.admits(events),
    ensures
        s.run(events).wf(),
        s.run(events).live.finite(),
        s.run(events).counter == s.run(events).live.len(),
    decreases events.len(),
{
    if events.len() > 0 {
        lemma_counter_counts_live_handles(s, events.drop_last());
        lemma_step_preserves_wf(s.run(events.drop_last()), events.last());
    }
}

/// Releasing a live handle lowers the counter by exactly one, and the counter
/// was at least one before: it never passes below zero.
pub proof fn lemma_release_decrements(s: State, handle: nat)
    requires
        s.wf(),
        s.live.contains(handle),
    ensures
        s.counter >= 1,
        s.step(Event::Release(handle)).counter == s.counter - 1,
        !s.step(Event::Release(handle)).live.contains(handle),
{
}

/// Taking `n` handles raises the counter by `n`; the new handles are those
/// numbered from `s.issued` on, and all of them are live.
pub proof fn lemma_listens(s: State, n: nat)
    requires
        s.wf(),
    ensures
        s.admits(listens(n)),
        s.run(listens(n)).wf(),
        s.run(listens(n)).counter == s.counter + n,
        s.run(listens(n)).issued == s.issued + n,
        s.run(listens(n)).in_progress == s.in_progress,
        forall|h: nat|
            #[trigger] s.run(listens(n)).live.contains(h) <==> (s.live.contains(h) || s.issued <= h
                < s.issued + n),
    decreases n,
{
    if n > 0 {
        let shorter = (n - 1) as nat;
        assert(listens(n).drop_last() =~= listens(shorter));
        assert(listens(n).last() == Event::Listen);
        lemma_listens(s, shorter);
    }
}

/// Releasing distinct live handles, in any order, lowers the counter by as
/// many as were released, and none of them is live afterwards.
pub proof fn lemma_releases(s: State, order: Seq<nat>)
    requires
        s.wf(),
        order.no_duplicates(),
        forall|i: int| 0 <= i < order.len() ==> s.live.contains(#[trigger] order[i]),
    ensures
        s.admits(releases(order)),
        s.run(releases(order)).wf(),
        s.run(releases(order)).counter == s.counter - order.len(),
        s.run(releases(order)).in_progress == s.in_progress,
        forall|h: nat|
            #[trigger] s.run(releases(order)).live.contains(h) <==> (s.live.contains(h)
                && !order.contains(h)),
    decreases order.len(),
{
    if order.len() > 0 {
        let shorter = order.drop_last();
        let last = order.last();
        assert(releases(order).drop_last() =~= releases(shorter));
        assert(releases(order).last() == Event::Release(last));
        lemma_releases(s, shorter);
        let before = s.run(releases(shorter));
        assert(!shorter.contains(last)) by {
            if shorter.contains(last) {
                let i = choose|i: int| 0 <= i < shorter.len() && shorter[i] == last;
                assert(order[i] == order[order.len() - 1]);
            }
        }
        assert(before.live.contains(last));
        lemma_release_decrements(before, last);
        let after = s.run(releases(order));
        assert(after == before.step(Event::Release(last)));
        assert forall|h: nat| #[trigger]
            after.live.contains(h) <==> (s.live.contains(h) && !order.contains(h)) by {
            assert(after.live.contains(h) <==> (before.live.contains(h) && h != last));
            assert(before.live.contains(h) <==> (s.live.contains(h) && !shorter.contains(h)));
            if order.contains(h) && h != last {
                let i = choose|i: int| 0 <= i < order.len() && order[i] == h;
                assert(shorter[i] == h);
            }
            if shorter.contains(h) {
                let i = choose|i: int| 0 <= i < shorter.len() && shorter[i] == h;
                assert(order[i] == h);
            }
            assert(order[order.len() - 1] == last);
        }
    }
}

/// The counter is accurate. Take `n` handles and release them in any order,
/// each once: after the first `k` releases the counter stands `n - k` above
/// where it started, so each release lowers it by exactly one and none takes
/// it below its starting value; after the last it is back where it started,
/// at zero for a coordinator that had no handle.
pub proof fn lemma_counter_accuracy(s: State, n: nat, order: Seq<nat>, k: nat)
    requires
        s.wf(),
        order.len() == n,
        order.no_duplicates(),
        forall|i: int| 0 <= i < n ==> s.issued <= #[trigger] order[i] < s.issued + n,
        k <= n,
    ensures
        s.admits(listens(n) + releases(order)),
        s.run(listens(n)).counter == s.counter + n,
        s.run(listens(n) + releases(order.take(k as int))).counter == s.counter + n - k,
        s.run(listens(n) + releases(order)).counter == s.counter,
        s.run(listens(n) + releases(order)).wf(),
{
    let taken = s.run(listens(n));
    let prefix = order.take(k as int);
    lemma_listens(s, n);
    assert forall|i: int| 0 <= i < n implies taken.live.contains(#[trigger] order[i]) by {
        assert(s.issued <= order[i] < s.issued + n);
    }
    assert forall|i: int| 0 <= i < k implies taken.live.contains(#[trigger] prefix[i]) by {
        assert(prefix[i] == order[i]);
    }
    assert(prefix.no_duplicates()) by {
        assert forall|i: int, j: int| 0 <= i < k && 0 <= j < k && i != j implies prefix[i]
            != prefix[j] by {
            assert(prefix[i] == order[i]);
            assert(prefix[j] == order[j]);
        }
    }
    lemma_releases(taken, prefix);
    lemma_releases(taken, order);
    lemma_run_concat(s, listens(n), releases(prefix));
    lemma_run_concat(s, listens(n), releases(order));
}

/// No handle is live exactly when the counter is zero.
pub proof fn lemma_empty_iff_none_counted(s: State)
    requires
        s.wf(),
    ensures
        s.live.is_empty() == (s.counter == 0),
{
    if s.counter == 0 {
        s.live.lemma_len0_is_empty();
    }
    if s.live.is_empty() {
        assert(s.live =~= Set::<nat>::empty());
    }
}

/// Shutdown is permanent: once in progress, it stays in progress whatever
/// happens afterwards, and a listener that has resolved resolves at every
/// later poll.
pub proof fn lemma_shutdown_is_permanent(s: State, events: Seq<Event>)
    requires
        s.in_progress,
    ensures
        s.run(events).in_progress,
        s.run(events).listener_resolves(),
    decreases events.len(),
{
    if events.len() > 0 {
        lemma_shutdown_is_permanent(s, events.drop_last());
    }
}

/// No wakeup is missed: a shutdown request wakes the listeners, and from
/// then on every poll of a listener handle resolves, whenever the handle was
/// taken and whatever happened in between.
pub proof fn lemma_no_missed_wakeup(s: State, later: Seq<Event>)
    ensures
        wakes_listeners(Event::Trigger),
        s.step(Event::Trigger).listener_resolves(),
        s.step(Event::Trigger).run(later).listener_resolves(),
{
    lemma_shutdown_is_permanent(s.step(Event::Trigger), later);
}

/// Only a shutdown request makes listeners resolve: taking or releasing a
/// handle neither wakes them nor changes what their poll returns.
pub proof fn lemma_only_trigger_resolves_listeners(s: State, event: Event)
    requires
        !(event is Trigger),
    ensures
        !wakes_listeners(event),
        s.step(event).listener_resolves() == s.listener_resolves(),
{
}

/// A second shutdown request changes nothing: the state after it is the
/// state after the first, no handle is counted twice, and it wakes the drain
/// waiters exactly if the first did.
pub proof fn lemma_trigger_is_idempotent(s: State)
    ensures
        s.step(Event::Trigger).step(Event::Trigger) == s.step(Event::Trigger),
        s.step(Event::Trigger).counter == s.counter,
        s.step(Event::Trigger).live == s.live,
        s.step(Event::Trigger).wakes_drain(Event::Trigger) == s.wakes_drain(Event::Trigger),
{
}

/// The drain waiters are woken by an event if and only if the coordinator is
/// drained right after it: shutdown in progress and no handle live.
pub proof fn lemma_drain_wake_iff_drained(s: State, event: Event)
    requires
        s.wf(),
        s.enabled(event),
    ensures
        s.wakes_drain(event) == s.step(event).drained(),
{
    lemma_step_preserves_wf(s, event);
    lemma_empty_iff_none_counted(s.step(event));
}

/// A poll of a drain waiter resolves if and only if shutdown has begun and
/// every handle has been released; while any handle is live it does not
/// resolve.
pub proof fn lemma_waiter_resolves_iff_drained(s: State)
    requires
        s.wf(),
    ensures
        s.waiter_resolves() == s.drained(),
        s.waiter_resolves() == (s.in_progress && forall|h: nat| !s.live.contains(h)),
        forall|h: nat| s.live.contains(h) ==> !s.waiter_resolves(),
{
    lemma_empty_iff_none_counted(s);
}

/// Releasing the last live handle after shutdown began wakes the drain
/// waiters, and so does a shutdown request that finds no handle live; in
/// both cases a drain waiter polled afterwards resolves.
pub proof fn lemma_drain_is_announced(s: State, handle: nat)
    requires
        s.wf(),
    ensures
        s.in_progress && s.live =~= set![handle] ==> {
            &&& s.wakes_drain(Event::Release(handle))
            &&& s.step(Event::Release(handle)).waiter_resolves()
        },
        s.live.is_empty() ==> {
            &&& s.wakes_drain(Event::Trigger)
            &&& s.step(Event::Trigger).waiter_resolves()
        },
{
    lemma_empty_iff_none_counted(s);
    if s.in_progress && s.live =~= set![handle] {
        assert(s.live.contains(handle));
        assert(s.live.remove(handle) =~= Set::<nat>::empty());
        lemma_release_decrements(s, handle);
        lemma_drain_wake_iff_drained(s, Event::Release(handle));
        lemma_step_preserves_wf(s, Event::Release(handle));
        lemma_waiter_resolves_iff_drained(s.step(Event::Release(handle)));
    }
}

/// A handle taken after shutdown began resolves at its first poll, without
/// waiting for a broadcast.
pub proof fn lemma_post_shutdown_listen_resolves(s: State)
    requires
        s.in_progress,
    ensures
        s.step(Event::Listen).listener_resolves(),
        s.step(Event::Listen).live.contains(s.issued),
{
}

} // verus!
