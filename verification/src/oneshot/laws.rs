//! What holds of every `timerfd` timer, whatever it is handed.

use crate::oneshot::timer_fd::{
    cancelled, consume_expiration, itimerspec, ready_is_readable, restarted, step, timer_value,
    Action, Event, Readiness, State,
};
use core::time::Duration;
use vstd::prelude::*;

verus! {

/// The state of a timer that started in `state` and was handed `events`,
/// one after another.
pub open spec fn run(state: State, events: Seq<Event>) -> State
    decreases events.len(),
{
    if events.len() == 0 {
        state
    } else {
        step(run(state, events.drop_last()), events.last()).0
    }
}

/// What a timer that started in `state` asked for when it was handed the
/// event at `index` of `events`.
pub open spec fn action_at(state: State, events: Seq<Event>, index: int) -> Action
    recommends
        0 <= index < events.len(),
{
    step(run(state, events.take(index)), events[index]).1
}

/// A timer was ready at some point while it was handed `events`.
pub open spec fn reported_ready(state: State, events: Seq<Event>) -> bool {
    exists|index: int| 0 <= index < events.len() && #[trigger] action_at(state, events, index) is Ready
}

/// The event is a read of the expiration counter that counted an
/// expiration.
pub open spec fn observes_expiration(event: Event) -> bool {
    match event {
        Event::Read(read) => consume_expiration(read) is Expired,
        _ => false,
    }
}

/// A timer is ready only when its expiration was observed: on the read that
/// counted an expiration, the timer ticking till then, or any time after.
pub proof fn lemma_ready_only_on_expiration(state: State, event: Event)
    ensures
        step(state, event).1 is Ready <==> state.expired() || (state.ticking()
            && observes_expiration(event)),
{
}

/// The event is the reactor's answer that the timer can be read.
pub open spec fn reports_readable(event: Event) -> bool {
    match event {
        Event::Readiness(Readiness::Ready(ready)) => ready_is_readable(ready),
        _ => false,
    }
}

/// The readiness edge is cleared before the counter is read: a timer asks
/// for the edge to be cleared only when told that it can be read, and for
/// the read only when told that the edge was cleared; and it asks for
/// either only while it ticks.
pub proof fn lemma_edge_cleared_before_read(state: State, event: Event)
    ensures
        step(state, event).1 is ClearReadReady <==> state.ticking() && reports_readable(event),
        step(state, event).1 is Read <==> state.ticking() && event is Cleared,
{
}

/// A timer has expired exactly from the step on that was ready: not before
/// the first time it is ready, and at once after it.
pub proof fn lemma_expired_iff_reported_ready(state: State, events: Seq<Event>)
    requires
        !state.expired(),
    ensures
        run(state, events).expired() <==> reported_ready(state, events),
    decreases events.len(),
{
    if events.len() > 0 {
        let before = events.drop_last();
        let last = events.len() - 1;
        lemma_expired_iff_reported_ready(state, before);
        assert(events.take(last) == before);
        assert forall|index: int| 0 <= index < before.len() implies action_at(state, before, index)
            == action_at(state, events, index) by {
            assert(before.take(index) == events.take(index));
        }
        if run(state, events).expired() {
            if run(state, before).expired() {
                let index = choose|index: int|
                    0 <= index < before.len() && #[trigger] action_at(state, before, index) is Ready;
                assert(action_at(state, events, index) is Ready);
            } else {
                assert(action_at(state, events, last) is Ready);
            }
        }
        if reported_ready(state, events) {
            let index = choose|index: int|
                0 <= index < events.len() && #[trigger] action_at(state, events, index) is Ready;
            if index < last {
                assert(action_at(state, before, index) is Ready);
            }
        }
    }
}

/// A new timer is ready only once its resource counted an expiration: by
/// the time it is ready, an event after the one that armed it was a read of
/// the counter that counted.
pub proof fn lemma_ready_follows_counted_read(timeout: Duration, events: Seq<Event>, index: int)
    requires
        0 <= index < events.len(),
        action_at(State::Init(timeout), events, index) is Ready,
    ensures
        exists|read: int| 0 < read <= index && observes_expiration(#[trigger] events[read]),
    decreases index,
{
    let start = State::Init(timeout);
    let handed = events.take(index);
    lemma_ready_only_on_expiration(run(start, handed), events[index]);
    if run(start, handed).expired() {
        lemma_expired_iff_reported_ready(start, handed);
        let earlier = choose|earlier: int|
            0 <= earlier < handed.len() && #[trigger] action_at(start, handed, earlier) is Ready;
        assert(handed.take(earlier) == events.take(earlier));
        lemma_ready_follows_counted_read(timeout, events, earlier);
        let read = choose|read: int|
            0 < read <= earlier && observes_expiration(#[trigger] events[read]);
        assert(0 < read <= index && observes_expiration(events[read]));
    } else {
        if index == 0 {
            assert(run(start, handed) == start);
        }
        assert(0 < index <= index && observes_expiration(events[index]));
    }
}

/// A timer that was ready is ready whenever it is asked again: nothing but
/// a restart makes it count anew.
pub proof fn lemma_ready_from_then_on(state: State, events: Seq<Event>, first: int, later: int)
    requires
        0 <= first <= later < events.len(),
        action_at(state, events, first) is Ready,
    ensures
        action_at(state, events, later) is Ready,
        run(state, events).expired(),
{
    let prefix = events.take(first + 1);
    assert(prefix.drop_last() == events.take(first));
    assert(prefix.last() == events[first]);
    assert(run(state, prefix).expired());
    lemma_expired_stays(state, prefix, events, first + 1);
    if first < later {
        assert(events.take(later).take(first + 1) == prefix);
        lemma_expired_stays(state, prefix, events.take(later), first + 1);
    }
}

/// A timer that has expired while it was handed the first `count` of
/// `events` has expired after all of them.
proof fn lemma_expired_stays(state: State, prefix: Seq<Event>, events: Seq<Event>, count: int)
    requires
        0 <= count <= events.len(),
        prefix == events.take(count),
        run(state, prefix).expired(),
    ensures
        run(state, events).expired(),
    decreases events.len(),
{
    if count < events.len() {
        assert(events.drop_last().take(count) == prefix);
        lemma_expired_stays(state, prefix, events.drop_last(), count);
    } else {
        assert(events.take(count) == events);
    }
}

/// A timer does not tick before its first poll, ticks right after it, and
/// from then on ticks exactly as long as it has not expired.
pub proof fn lemma_ticking_until_expired(timeout: Duration, events: Seq<Event>)
    ensures
        !State::Init(timeout).ticking(),
        events.len() == 1 ==> run(State::Init(timeout), events).ticking(),
        events.len() > 0 ==> (run(State::Init(timeout), events).ticking() <==> !run(
            State::Init(timeout),
            events,
        ).expired()),
    decreases events.len(),
{
    if events.len() > 1 {
        lemma_ticking_until_expired(timeout, events.drop_last());
    } else if events.len() == 1 {
        assert(run(State::Init(timeout), events.drop_last()) == State::Init(timeout));
    }
}

/// The first thing a new timer asks for is to be armed with its timeout,
/// and it never asks to be armed again.
pub proof fn lemma_armed_once(timeout: Duration, events: Seq<Event>, index: int)
    requires
        0 <= index < events.len(),
    ensures
        index == 0 ==> action_at(State::Init(timeout), events, index) == Action::Arm(timer_value(timeout)),
        index > 0 ==> !(action_at(State::Init(timeout), events, index) is Arm),
{
    if index == 0 {
        assert(events.take(0).len() == 0);
    } else {
        lemma_armed_by_first_event(timeout, events.take(index));
    }
}

/// A timer is armed from the first event it is handed.
pub proof fn lemma_armed_by_first_event(timeout: Duration, events: Seq<Event>)
    requires
        events.len() > 0,
    ensures
        run(State::Init(timeout), events).armed(),
    decreases events.len(),
{
    if events.len() > 1 {
        lemma_armed_by_first_event(timeout, events.drop_last());
    } else {
        assert(run(State::Init(timeout), events.drop_last()) == State::Init(timeout));
    }
}

/// What a timer resource set to `setting` is set to once `command` was
/// carried out on it.
pub open spec fn carried_out(setting: itimerspec, command: Option<itimerspec>) -> itimerspec {
    match command {
        Some(new_value) => new_value,
        None => setting,
    }
}

/// A restart counts from the new timeout, whatever the old one was and
/// whatever the resource was set to: a timer that was armed ticks, with its
/// resource set to the new timeout at the restart; one that was not is
/// armed with the new timeout by its first poll.
pub proof fn lemma_restart_takes_new_timeout(
    state: State,
    setting: itimerspec,
    timeout: Duration,
    event: Event,
)
    ensures
        state.armed() ==> restarted(state, timeout).0.ticking() && carried_out(
            setting,
            restarted(state, timeout).1,
        ) == timer_value(timeout),
        !state.armed() ==> carried_out(setting, restarted(state, timeout).1) == setting && step(
            restarted(state, timeout).0,
            event,
        ) == (State::Running(false), Action::Arm(timer_value(timeout))),
{
}

/// Cancelling twice is cancelling once: after the second cancel the timer
/// and the setting of its resource are what they were after the first.
pub proof fn lemma_cancel_idempotent(state: State, setting: itimerspec)
    ensures
        cancelled(cancelled(state).0).0 == cancelled(state).0,
        carried_out(carried_out(setting, cancelled(state).1), cancelled(cancelled(state).0).1)
            == carried_out(setting, cancelled(state).1),
{
}

} // verus!
