//! Laws of the reactor's rounds: what happens to sources and to those who wait on them.

use crate::direction::WakeMode;
use crate::event::Event;
use crate::laws::readiness::{
    after_deliveries, delivery_wakes_those_who_wait, empty_iff_nobody_waits,
    level_ready_iff_delivered_in_other_round, parked_are_those_who_wait, states_interest,
};
use crate::reactor::{
    after_event, after_events, next_tick, no_rearm, rearm_after, woken_by_event, woken_by_events,
    ReactorView,
};
use crate::registration::{PollerOp, Registration};
use crate::source::{Side, SourceView};
use crate::timers::TimerOp;
use std::task::Waker;
use vstd::arithmetic::div_mod::{
    lemma_add_mod_noop, lemma_mod_self_0, lemma_mod_sub_multiples_vanish, lemma_small_mod,
};
use vstd::prelude::*;

verus! {

/// To deliver events in several goes is to deliver them in one.
pub proof fn dispatch_in_parts(
    sources: Map<usize, SourceView>,
    first: Seq<Event>,
    second: Seq<Event>,
    tick: usize,
)
    ensures
        after_events(sources, first + second, tick) == after_events(
            after_events(sources, first, tick),
            second,
            tick,
        ),
        woken_by_events(sources, first + second, tick) == woken_by_events(sources, first, tick)
            + woken_by_events(after_events(sources, first, tick), second, tick),
    decreases second.len(),
{
    if second.len() == 0 {
        assert(first + second =~= first);
        assert(woken_by_events(sources, first, tick) + Seq::<Waker>::empty()
            =~= woken_by_events(sources, first, tick));
    } else {
        dispatch_in_parts(sources, first, second.drop_last(), tick);
        assert((first + second).drop_last() =~= first + second.drop_last());
        assert((first + second).last() == second.last());
        let middle = after_events(sources, first, tick);
        let last = woken_by_event(after_events(middle, second.drop_last(), tick), second.last());
        assert(woken_by_events(sources, first, tick) + woken_by_events(
            middle,
            second.drop_last(),
            tick,
        ) + last =~= woken_by_events(sources, first, tick) + (woken_by_events(
            middle,
            second.drop_last(),
            tick,
        ) + last));
    }
}

/// Events add no source and remove none; a source whose key no event has stays as it is.
pub proof fn dispatch_touches_only_named_sources(
    sources: Map<usize, SourceView>,
    events: Seq<Event>,
    tick: usize,
    key: usize,
)
    ensures
        after_events(sources, events, tick).contains_key(key) <==> sources.contains_key(key),
        (forall|i: int| 0 <= i < events.len() ==> #[trigger] events[i].key != key)
            && sources.contains_key(key) ==> after_events(sources, events, tick)[key]
            == sources[key],
    decreases events.len(),
{
    if events.len() > 0 {
        let before = events.drop_last();
        dispatch_touches_only_named_sources(sources, before, tick, key);
        assert(forall|i: int| 0 <= i < before.len() ==> #[trigger] before[i] == events[i]);
        assert(events.last() == events[events.len() - 1]);
    }
}

/// The events with this key, each with the round `tick`.
pub open spec fn own_events(events: Seq<Event>, key: usize, tick: usize) -> Seq<(Event, usize)>
    decreases events.len(),
{
    if events.len() == 0 {
        Seq::empty()
    } else {
        let before = own_events(events.drop_last(), key, tick);
        if events.last().key == key {
            before.push((events.last(), tick))
        } else {
            before
        }
    }
}

/// To a source a round is the deliveries of its own events, in their order.
pub proof fn source_sees_its_own_events(
    sources: Map<usize, SourceView>,
    events: Seq<Event>,
    tick: usize,
    key: usize,
)
    requires
        sources.contains_key(key),
    ensures
        after_events(sources, events, tick).contains_key(key),
        after_events(sources, events, tick)[key] == after_deliveries(
            sources[key],
            own_events(events, key, tick),
        ),
    decreases events.len(),
{
    if events.len() > 0 {
        source_sees_its_own_events(sources, events.drop_last(), tick, key);
        if events.last().key == key {
            let before = own_events(events.drop_last(), key, tick);
            assert(before.push((events.last(), tick)).drop_last() =~= before);
        }
    }
}

/// An event whose key no source has changes nothing and wakes nobody.
pub proof fn unknown_event_is_passed_over(
    sources: Map<usize, SourceView>,
    event: Event,
    tick: usize,
)
    requires
        !sources.contains_key(event.key),
    ensures
        after_event(sources, event, tick) == sources,
        woken_by_event(sources, event).len() == 0,
{
}

/// Whoever waits on a side of a source when a round's events are delivered, and one of them is
/// an event of that side of that source, is woken in that round.
pub proof fn round_wakes_those_who_wait(
    sources: Map<usize, SourceView>,
    events: Seq<Event>,
    tick: usize,
    key: usize,
    side: Side,
    waker: Waker,
)
    requires
        sources.contains_key(key),
        sources[key].side(side).parked().contains(waker),
        exists|i: int| 0 <= i < events.len() && #[trigger] events[i].key == key && events[i].touches(side),
    ensures
        woken_by_events(sources, events, tick).contains(waker),
{
    lemma_woken_or_waiting(sources, events, tick, key, side, waker);
}

/// In the course of the deliveries a waker is woken or still waits; it is woken once there was an
/// event of its side.
proof fn lemma_woken_or_waiting(
    sources: Map<usize, SourceView>,
    events: Seq<Event>,
    tick: usize,
    key: usize,
    side: Side,
    waker: Waker,
)
    requires
        sources.contains_key(key),
        sources[key].side(side).parked().contains(waker),
    ensures
        ({
            let after = after_events(sources, events, tick);
            &&& after.contains_key(key)
            &&& woken_by_events(sources, events, tick).contains(waker)
                || after[key].side(side).parked().contains(waker)
        }),
        (exists|i: int| 0 <= i < events.len() && #[trigger] events[i].key == key && events[i].touches(side))
            ==> woken_by_events(sources, events, tick).contains(waker),
    decreases events.len(),
{
    if events.len() > 0 {
        let before = events.drop_last();
        let event = events.last();
        lemma_woken_or_waiting(sources, before, tick, key, side, waker);
        let middle = after_events(sources, before, tick);
        let woken = woken_by_events(sources, before, tick);
        let more = woken_by_event(middle, event);
        assert(woken_by_events(sources, events, tick) == woken + more);
        if woken.contains(waker) {
            assert((woken + more)[woken.index_of(waker)] == waker);
        } else {
            assert forall|i: int|
                0 <= i < events.len() && #[trigger] events[i].key == key && events[i].touches(
                    side,
                ) implies i == before.len() by {
                if i < before.len() {
                    assert(before[i] == events[i]);
                }
            }
            if event.key == key {
                delivery_wakes_those_who_wait(middle[key], event, tick, waker);
                if more.contains(waker) {
                    assert((woken + more)[woken.len() + more.index_of(waker)] == waker);
                }
            }
        }
    }
}

/// A task that parks on a level-mode source is ready after a delivery of its side in the next
/// round, unless the last delivery before was in a round with the same number, as can be after
/// the numbers start again.
pub proof fn delivery_in_next_round_is_noticed(
    source: SourceView,
    side: Side,
    waker: Waker,
    ticker: usize,
    event: Event,
)
    requires
        source.wake_mode == WakeMode::Level,
        event.touches(side),
        source.side(side).tick != next_tick(ticker),
    ensures
        source.parking(side, waker, ticker).delivered(event, next_tick(ticker)).ready(side),
{
    reveal_with_fuel(after_deliveries, 2);
    let deliveries = seq![(event, next_tick(ticker))];
    let parked = source.parking(side, waker, ticker);
    assert(deliveries.drop_last() =~= Seq::empty());
    assert(after_deliveries(parked, deliveries) == parked.delivered(event, next_tick(ticker)));
    level_ready_iff_delivered_in_other_round(source, side, waker, ticker, deliveries);
}

/// A source that is registered and then taken off again leaves the reactor as it was; so a
/// registration that the poller refused leaves no trace.
pub proof fn insertion_is_undone_by_removal(
    reactor: ReactorView,
    registration: Registration,
    key: usize,
    wake_mode: WakeMode,
)
    requires
        !reactor.sources.contains_key(key),
    ensures
        ({
            let inserted = reactor.with_source(registration, key, wake_mode);
            &&& inserted.sources.contains_key(key)
            &&& inserted.sources[key].registration == registration
            &&& ReactorView { sources: inserted.sources.remove(key), ..inserted } == reactor
        }),
{
    let inserted = reactor.with_source(registration, key, wake_mode);
    assert(inserted.sources.remove(key) =~= reactor.sources);
}

/// The poller reports an event of a source once and then watches for nothing. So whenever somebody
/// still waits on a source after an event of it was delivered, on whichever side, the deliveries
/// stop there with the command that tells the poller of exactly those who wait; they go on only if
/// nobody waits.
///
/// `events` are those that were delivered in one go, and `update` is what that go returned.
pub proof fn dispatch_restates_what_remains(
    sources: Map<usize, SourceView>,
    events: Seq<Event>,
    tick: usize,
    update: Option<PollerOp>,
    i: int,
)
    requires
        match update {
            Some(op) => {
                &&& events.len() > 0
                &&& no_rearm(sources, events.drop_last(), tick)
                &&& rearm_after(
                    after_events(sources, events.drop_last(), tick),
                    events.last(),
                    tick,
                ) == Some(op)
            },
            None => no_rearm(sources, events, tick),
        },
        0 <= i < events.len(),
        sources.contains_key(events[i].key),
    ensures
        ({
            let after = after_events(sources, events.take(i + 1), tick)[events[i].key];
            let waited_on = {
                ||| after.read.waker is Some
                ||| after.write.waker is Some
                ||| exists|key: usize| #[trigger]
                    after.read.slots.contains_key(key) && after.read.slots[key] is Some
                ||| exists|key: usize| #[trigger]
                    after.write.slots.contains_key(key) && after.write.slots[key] is Some
            };
            &&& waited_on <==> update is Some && i == events.len() - 1
            &&& waited_on ==> states_interest(update->0, after)
        }),
{
    let seen = events.take(i + 1);
    assert(seen.drop_last() =~= events.take(i));
    assert(seen.last() == events[i]);
    dispatch_touches_only_named_sources(sources, events.take(i), tick, events[i].key);
    let middle = after_events(sources, events.take(i), tick);
    assert(after_events(sources, seen, tick) == after_event(middle, events[i], tick));
    let after = after_events(sources, seen, tick)[events[i].key];
    empty_iff_nobody_waits(after.read);
    empty_iff_nobody_waits(after.write);
    if update is Some && i == events.len() - 1 {
        assert(events.take(i) =~= events.drop_last());
    } else if update is Some {
        lemma_no_rearm_each(sources, events.drop_last(), tick, i);
        assert(events.drop_last().take(i) =~= events.take(i));
    } else {
        lemma_no_rearm_each(sources, events, tick, i);
    }
}

proof fn lemma_no_rearm_each(
    sources: Map<usize, SourceView>,
    events: Seq<Event>,
    tick: usize,
    i: int,
)
    requires
        no_rearm(sources, events, tick),
        0 <= i < events.len(),
    ensures
        rearm_after(after_events(sources, events.take(i), tick), events[i], tick) is None,
    decreases events.len(),
{
    if i == events.len() - 1 {
        assert(events.take(i) =~= events.drop_last());
    } else {
        lemma_no_rearm_each(sources, events.drop_last(), tick, i);
        assert(events.drop_last().take(i) =~= events.take(i));
    }
}

/// Deliveries add nobody to those who wait.
proof fn lemma_still_waiting_waited_before(
    sources: Map<usize, SourceView>,
    events: Seq<Event>,
    tick: usize,
    key: usize,
    side: Side,
    waker: Waker,
)
    requires
        sources.contains_key(key),
        after_events(sources, events, tick)[key].side(side).parked().contains(waker),
    ensures
        sources[key].side(side).parked().contains(waker),
    decreases events.len(),
{
    if events.len() > 0 {
        let before = events.drop_last();
        dispatch_touches_only_named_sources(sources, before, tick, key);
        let middle = after_events(sources, before, tick);
        if events.last().key == key {
            delivery_wakes_those_who_wait(middle[key], events.last(), tick, waker);
            parked_are_those_who_wait(middle[key].delivered(events.last(), tick).side(side), waker);
        }
        lemma_still_waiting_waited_before(sources, before, tick, key, side, waker);
    }
}

/// A round wakes nobody else: each waker that it collects was that of somebody who waited on a
/// side of a source, and there was an event of that side of that source.
pub proof fn round_wakes_only_those_who_wait(
    sources: Map<usize, SourceView>,
    events: Seq<Event>,
    tick: usize,
    waker: Waker,
)
    requires
        woken_by_events(sources, events, tick).contains(waker),
    ensures
        exists|i: int, side: Side|
            0 <= i < events.len() && sources.contains_key(events[i].key) && #[trigger] events[i].touches(
                side,
            ) && sources[events[i].key].side(side).parked().contains(waker),
    decreases events.len(),
{
    if events.len() > 0 {
        let before = events.drop_last();
        let event = events.last();
        let woken = woken_by_events(sources, before, tick);
        let middle = after_events(sources, before, tick);
        let more = woken_by_event(middle, event);
        let at = (woken + more).index_of(waker);
        if at < woken.len() {
            assert(woken[at] == waker);
            round_wakes_only_those_who_wait(sources, before, tick, waker);
            let (i, side) = choose|i: int, side: Side|
                0 <= i < before.len() && sources.contains_key(before[i].key)
                    && #[trigger] before[i].touches(side)
                    && sources[before[i].key].side(side).parked().contains(waker);
            assert(events[i] == before[i]);
            assert(events[i].touches(side));
        } else {
            assert(more[at - woken.len()] == waker);
            assert(more.contains(waker));
            dispatch_touches_only_named_sources(sources, before, tick, event.key);
            delivery_wakes_those_who_wait(middle[event.key], event, tick, waker);
            let side = if event.readable && middle[event.key].read.parked().contains(waker) {
                Side::Read
            } else {
                Side::Write
            };
            lemma_still_waiting_waited_before(sources, before, tick, event.key, side, waker);
            assert(events[events.len() - 1] == event);
            assert(events[events.len() - 1].touches(side));
        }
    }
}

/// The number of the round that is `n` rounds after the one with number `ticker`.
pub open spec fn nth_tick(ticker: usize, n: nat) -> usize
    decreases n,
{
    if n == 0 {
        ticker
    } else {
        next_tick(nth_tick(ticker, (n - 1) as nat))
    }
}

/// Rounds are numbered one after the other, and start again at 0 after the last number. So a round
/// shares its number with none of the usize::MAX rounds before it.
pub proof fn rounds_are_numbered_apart(ticker: usize, n: nat)
    ensures
        nth_tick(ticker, n) == (ticker + n) % (usize::MAX + 1),
        0 < n <= usize::MAX ==> nth_tick(ticker, n) != ticker,
    decreases n,
{
    let m = usize::MAX + 1;
    if n == 0 {
        lemma_small_mod(ticker as nat, m as nat);
    } else {
        let k = (n - 1) as nat;
        rounds_are_numbered_apart(ticker, k);
        let c = (ticker + k) % m;
        lemma_add_mod_noop(ticker + k, 1, m);
        lemma_small_mod(1, m as nat);
        if c == m - 1 {
            lemma_mod_self_0(m);
        } else {
            lemma_small_mod((c + 1) as nat, m as nat);
        }
        if n <= usize::MAX {
            if ticker + n < m {
                lemma_small_mod((ticker + n) as nat, m as nat);
            } else {
                lemma_mod_sub_multiples_vanish(ticker + n, m);
                lemma_small_mod((ticker + n - m) as nat, m as nat);
            }
        }
    }
}

/// A task that parks on a level-mode source is ready after a delivery of its side in any of the
/// usize::MAX rounds that follow, unless the last delivery before it parked was in a round with
/// the same number.
pub proof fn delivery_in_a_later_round_is_noticed(
    source: SourceView,
    side: Side,
    waker: Waker,
    ticker: usize,
    event: Event,
    n: nat,
)
    requires
        source.wake_mode == WakeMode::Level,
        event.touches(side),
        0 < n <= usize::MAX,
        source.side(side).tick != nth_tick(ticker, n),
    ensures
        source.parking(side, waker, ticker).delivered(event, nth_tick(ticker, n)).ready(side),
{
    reveal_with_fuel(after_deliveries, 2);
    rounds_are_numbered_apart(ticker, n);
    let deliveries = seq![(event, nth_tick(ticker, n))];
    let parked = source.parking(side, waker, ticker);
    assert(deliveries.drop_last() =~= Seq::empty());
    assert(after_deliveries(parked, deliveries) == parked.delivered(event, nth_tick(ticker, n)));
    level_ready_iff_delivered_in_other_round(source, side, waker, ticker, deliveries);
}

/// To set, remove or fire timers leaves the sources and the number of the round as they are, and
/// to fire them the number of the next timer too.
pub proof fn timers_leave_sources_alone(reactor: ReactorView, op: TimerOp, now: i128)
    ensures
        reactor.with_op(op).sources == reactor.sources,
        reactor.with_op(op).ticker == reactor.ticker,
        reactor.with_op(op).next_timer_id == reactor.next_timer_id,
        reactor.fired(now).sources == reactor.sources,
        reactor.fired(now).ticker == reactor.ticker,
        reactor.fired(now).next_timer_id == reactor.next_timer_id,
{
}

/// A source that was just registered has the mode, the key and the object it was registered with.
/// Nothing was delivered to it, nobody waits on it and nothing of it is ready. The other sources
/// and the rest of the reactor are as they were.
pub proof fn fresh_source_is_quiet(
    reactor: ReactorView,
    registration: Registration,
    key: usize,
    wake_mode: WakeMode,
    side: Side,
    other: usize,
)
    ensures
        ({
            let after = reactor.with_source(registration, key, wake_mode);
            let source = after.sources[key];
            let direction = source.side(side);
            &&& after.sources.contains_key(key)
            &&& source.registration == registration
            &&& source.key == key
            &&& source.wake_mode == wake_mode
            &&& direction.tick == 0
            &&& direction.events == 0
            &&& direction.waker is None
            &&& forall|slot: usize| !#[trigger] direction.slots.contains_key(slot)
            &&& !source.ready(side)
            &&& direction.ticks is None
            &&& direction.captured_events is None
            &&& other != key ==> {
                &&& after.sources.contains_key(other) <==> reactor.sources.contains_key(other)
                &&& reactor.sources.contains_key(other) ==> after.sources[other]
                    == reactor.sources[other]
            }
            &&& after.timers == reactor.timers
            &&& after.timer_ops == reactor.timer_ops
            &&& after.ticker == reactor.ticker
            &&& after.next_timer_id == reactor.next_timer_id
        }),
{
}

/// The object that a command is about.
pub open spec fn object_of(op: PollerOp) -> Option<Registration> {
    match op {
        PollerOp::Add { socket, .. } => Some(Registration::Socket(socket)),
        PollerOp::Modify { socket, .. } => Some(Registration::Socket(socket)),
        PollerOp::Delete { socket } => Some(Registration::Socket(socket)),
        PollerOp::AddWaitable { handle, .. } => Some(Registration::Handle(handle)),
        PollerOp::ModifyWaitable { handle, .. } => Some(Registration::Handle(handle)),
        PollerOp::RemoveWaitable { handle } => Some(Registration::Handle(handle)),
        PollerOp::SetUserKey { file, .. } => Some(Registration::File(file)),
        PollerOp::Deactivate { file } => Some(Registration::File(file)),
        PollerOp::Nothing => None,
    }
}

/// Each command is about the object that was registered: it is added under its key with no
/// interest, its interest is stated as it is given, and it is taken off again. A file alone needs
/// no statement of interest.
pub proof fn commands_are_about_the_registered_object(
    registration: Registration,
    key: usize,
    interest: Event,
)
    ensures
        object_of(registration.add_op(key)) == Some(registration),
        match registration.add_op(key) {
            PollerOp::Add { interest: none, .. } => none.key == key && !none.readable
                && !none.writable,
            PollerOp::AddWaitable { interest: none, .. } => none.key == key && !none.readable
                && !none.writable,
            PollerOp::SetUserKey { key: tag, .. } => tag == key,
            _ => false,
        },
        registration is File <==> registration.modify_op(interest) == PollerOp::Nothing,
        registration !is File ==> object_of(registration.modify_op(interest)) == Some(registration),
        match registration.modify_op(interest) {
            PollerOp::Modify { interest: stated, .. } => stated == interest,
            PollerOp::ModifyWaitable { interest: stated, .. } => stated == interest,
            PollerOp::Nothing => true,
            _ => false,
        },
        object_of(registration.delete_op()) == Some(registration),
        match registration.delete_op() {
            PollerOp::Delete { .. } | PollerOp::RemoveWaitable { .. } => true,
            PollerOp::Deactivate { .. } => true,
            _ => false,
        },
{
}

/// One event wakes those whom its source gives up, and changes that source alone.
pub proof fn one_event_is_for_one_source(
    sources: Map<usize, SourceView>,
    event: Event,
    tick: usize,
    other: usize,
)
    requires
        sources.contains_key(event.key),
    ensures
        woken_by_events(sources, seq![event], tick) == sources[event.key].woken(event),
        after_events(sources, seq![event], tick)[event.key] == sources[event.key].delivered(
            event,
            tick,
        ),
        other != event.key && sources.contains_key(other) ==> after_events(
            sources,
            seq![event],
            tick,
        )[other] == sources[other],
{
    reveal_with_fuel(after_events, 2);
    reveal_with_fuel(woken_by_events, 2);
    assert(seq![event].drop_last() =~= Seq::<Event>::empty());
    assert(Seq::<Waker>::empty() + sources[event.key].woken(event)
        =~= sources[event.key].woken(event));
}

} // verus!
