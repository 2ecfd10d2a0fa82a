//! Laws of readiness: what a poll learns of deliveries, and who is woken by them.

use crate::direction::{next_count, parked_below, DirectionView, WakeMode};
use crate::event::Event;
use crate::registration::{PollerOp, Registration};
use crate::source::{wakes_same_task, Parked, PollReady, Ready, Side, SourceView};
use std::task::Waker;
use vstd::prelude::*;

verus! {

/// The source after deliveries, each an event and the round it was delivered in.
pub open spec fn after_deliveries(source: SourceView, deliveries: Seq<(Event, usize)>) -> SourceView
    decreases deliveries.len(),
{
    if deliveries.len() == 0 {
        source
    } else {
        let (event, tick) = deliveries.last();
        after_deliveries(source, deliveries.drop_last()).delivered(event, tick)
    }
}

/// How many of the deliveries are ones of `side`.
pub open spec fn count_on(deliveries: Seq<(Event, usize)>, side: Side) -> nat
    decreases deliveries.len(),
{
    if deliveries.len() == 0 {
        0
    } else {
        let (event, _) = deliveries.last();
        count_on(deliveries.drop_last(), side) + if event.touches(side) {
            1nat
        } else {
            0nat
        }
    }
}

/// The number of values of the count of events: 2^64.
pub open spec fn event_counts() -> int {
    u64::MAX + 1
}

/// The count of events after `count` deliveries, where it was `start` before.
pub open spec fn counted(start: u64, count: nat) -> int {
    (start + count) % event_counts()
}

proof fn lemma_counted_step(start: u64, count: nat)
    ensures
        counted(start, 0) == start,
        counted(start, count + 1) == next_count(counted(start, count), u64::MAX as int),
        counted(start, count) == start <==> count as int % event_counts() == 0,
{
    let m = event_counts();
    vstd::arithmetic::div_mod::lemma_small_mod(start as nat, m as nat);
    vstd::arithmetic::div_mod::lemma_add_mod_noop(start as int, count as int, m);
    vstd::arithmetic::div_mod::lemma_add_mod_noop(start + count, 1, m);
    vstd::arithmetic::div_mod::lemma_mod_bound(start + count, m);
    vstd::arithmetic::div_mod::lemma_mod_bound(count as int, m);
    let c = (start + count) % m;
    assert((start + (count + 1)) % m == (c + 1) % m) by {
        vstd::arithmetic::div_mod::lemma_small_mod(1nat, m as nat);
    }
    if c == m - 1 {
        assert((c + 1) % m == 0) by {
            vstd::arithmetic::div_mod::lemma_mod_self_0(m);
        }
    } else {
        vstd::arithmetic::div_mod::lemma_small_mod((c + 1) as nat, m as nat);
    }
    let r = count as int % m;
    if start + r < m {
        vstd::arithmetic::div_mod::lemma_small_mod((start + r) as nat, m as nat);
    } else {
        assert((start + r) % m == start + r - m) by {
            vstd::arithmetic::div_mod::lemma_mod_sub_multiples_vanish(start + r, m);
            vstd::arithmetic::div_mod::lemma_small_mod((start + r - m) as nat, m as nat);
        }
    }
}

/// Deliveries add to the count of events of their side, and change neither the snapshot nor the
/// mode.
pub proof fn lemma_deliveries_count(source: SourceView, deliveries: Seq<(Event, usize)>, side: Side)
    ensures
        ({
            let after = after_deliveries(source, deliveries);
            &&& after.wake_mode == source.wake_mode
            &&& after.registration == source.registration
            &&& after.key == source.key
            &&& after.side(side).ticks == source.side(side).ticks
            &&& after.side(side).captured_events == source.side(side).captured_events
            &&& after.side(side).events == counted(
                source.side(side).events,
                count_on(deliveries, side),
            )
        }),
    decreases deliveries.len(),
{
    let start = source.side(side).events;
    if deliveries.len() == 0 {
        lemma_counted_step(start, 0);
    } else {
        let before = deliveries.drop_last();
        lemma_deliveries_count(source, before, side);
        lemma_counted_step(start, count_on(before, side));
    }
}

/// In edge mode a task that is parked is ready exactly if deliveries of its side happened since,
/// whatever happened in the other direction and in whichever rounds: no delivery is missed, and
/// none is made up. The one exception is a multiple of 2^64 deliveries, after which the count is
/// what it was.
pub proof fn edge_ready_iff_delivered(
    source: SourceView,
    side: Side,
    deliveries: Seq<(Event, usize)>,
)
    requires
        source.wake_mode == WakeMode::Edge,
        source.armed(side),
    ensures
        after_deliveries(source, deliveries).ready(side) <==> count_on(deliveries, side) as int
            % event_counts() != 0,
        0 < count_on(deliveries, side) < event_counts() ==> after_deliveries(
            source,
            deliveries,
        ).ready(side),
        count_on(deliveries, side) == 0 ==> !after_deliveries(source, deliveries).ready(side),
{
    lemma_deliveries_count(source, deliveries, side);
    lemma_counted_step(source.side(side).events, count_on(deliveries, side));
    if 0 < count_on(deliveries, side) < event_counts() {
        vstd::arithmetic::div_mod::lemma_small_mod(
            count_on(deliveries, side),
            event_counts() as nat,
        );
    }
}

/// A task that arms an edge-mode source before it submits an operation notices the completion,
/// also one that is delivered before the task polls the operation for the first time.
pub proof fn armed_before_submit_notices_completion(
    before: SourceView,
    side: Side,
    waker: Waker,
    ticker: usize,
    armed: SourceView,
    parked: Parked,
    deliveries: Seq<(Event, usize)>,
)
    requires
        before.wake_mode == WakeMode::Edge,
        before.wf(),
        before.arms(side, waker, ticker, armed, parked),
        0 < count_on(deliveries, side) < event_counts(),
    ensures
        armed.armed(side),
        !armed.ready(side),
        after_deliveries(armed, deliveries).ready(side),
{
    edge_ready_iff_delivered(armed, side, deliveries);
}

/// A delivery is consumed once: after a poll found it, the next poll finds nothing, until the task
/// was parked again and another event was delivered. So a loop that polls until the source is not
/// ready ends after two polls.
pub proof fn delivery_is_consumed_once(source: SourceView, side: Side, deliveries: Seq<(Event, usize)>)
    ensures
        !source.released(side).ready(side),
        !after_deliveries(source.released(side), deliveries).ready(side),
{
    lemma_deliveries_count(source.released(side), deliveries, side);
}

/// The round of the last delivery of `side`; `last` if there was none.
pub open spec fn last_round(deliveries: Seq<(Event, usize)>, side: Side, last: usize) -> usize
    decreases deliveries.len(),
{
    if deliveries.len() == 0 {
        last
    } else {
        let (event, tick) = deliveries.last();
        if event.touches(side) {
            tick
        } else {
            last_round(deliveries.drop_last(), side, last)
        }
    }
}

proof fn lemma_deliveries_tick(source: SourceView, deliveries: Seq<(Event, usize)>, side: Side)
    ensures
        after_deliveries(source, deliveries).side(side).tick == last_round(
            deliveries,
            side,
            source.side(side).tick,
        ),
    decreases deliveries.len(),
{
    if deliveries.len() > 0 {
        lemma_deliveries_tick(source, deliveries.drop_last(), side);
    }
}

/// In level mode a task that parks in round `ticker` is ready exactly if the last delivery of its
/// side was in another round than that, and in another one than the last delivery before it
/// parked. So a delivery in the round in which it parked is not noticed; and without a delivery
/// of its side it is not ready.
pub proof fn level_ready_iff_delivered_in_other_round(
    source: SourceView,
    side: Side,
    waker: Waker,
    ticker: usize,
    deliveries: Seq<(Event, usize)>,
)
    requires
        source.wake_mode == WakeMode::Level,
    ensures
        ({
            let before = source.side(side).tick;
            let after = after_deliveries(source.parking(side, waker, ticker), deliveries);
            let round = last_round(deliveries, side, before);
            &&& after.ready(side) <==> round != ticker && round != before
            &&& count_on(deliveries, side) == 0 ==> !after.ready(side)
        }),
{
    let parked = source.parking(side, waker, ticker);
    lemma_deliveries_count(parked, deliveries, side);
    lemma_deliveries_tick(parked, deliveries, side);
    lemma_no_delivery_no_round(deliveries, side, source.side(side).tick);
}

proof fn lemma_no_delivery_no_round(deliveries: Seq<(Event, usize)>, side: Side, last: usize)
    ensures
        count_on(deliveries, side) == 0 ==> last_round(deliveries, side, last) == last,
    decreases deliveries.len(),
{
    if deliveries.len() > 0 {
        lemma_no_delivery_no_round(deliveries.drop_last(), side, last);
    }
}

/// A snapshot for one mode replaces one for the other, and right after it was taken nothing is
/// ready.
pub proof fn capture_replaces_snapshot(direction: DirectionView, mode: WakeMode, ticker: usize)
    ensures
        !direction.captured(mode, ticker).ready(mode),
        mode == WakeMode::Level ==> direction.captured(mode, ticker).captured_events is None,
        mode == WakeMode::Edge ==> direction.captured(mode, ticker).ticks is None,
{
}

/// A waker is in the list exactly if it is in one of the slots.
proof fn lemma_parked_below_contains(slots: Map<usize, Option<Waker>>, n: nat, waker: Waker)
    ensures
        parked_below(slots, n).contains(waker) <==> exists|key: usize|
            key < n && #[trigger] slots.contains_key(key) && slots[key] == Some(waker),
    decreases n,
{
    if n == 0 {
        assert(!parked_below(slots, 0).contains(waker));
    } else {
        let m = (n - 1) as nat;
        lemma_parked_below_contains(slots, m, waker);
        let rest = parked_below(slots, m);
        let key = m as usize;
        if m <= usize::MAX && slots.contains_key(key) && slots[key] is Some {
            let grown = rest.push(slots[key]->0);
            assert(parked_below(slots, n) == grown);
            assert(grown[rest.len() as int] == slots[key]->0);
            if rest.contains(waker) {
                assert(grown[rest.index_of(waker)] == waker);
            }
            if grown.contains(waker) {
                let i = grown.index_of(waker);
                if i < rest.len() {
                    assert(rest[i] == waker);
                }
            }
        }
    }
}

/// The wakers that a direction hands over are exactly those of the polling task and of the
/// futures that wait on it; there are none exactly if nobody waits.
pub proof fn parked_are_those_who_wait(direction: DirectionView, waker: Waker)
    ensures
        direction.parked().contains(waker) <==> {
            ||| direction.waker == Some(waker)
            ||| exists|key: usize| #[trigger]
                direction.slots.contains_key(key) && direction.slots[key] == Some(waker)
        },
        direction.parked().len() == 0 <==> direction.is_empty(),
{
    let slots = direction.slots;
    let all = usize::MAX as nat + 1;
    let others = parked_below(slots, all);
    lemma_parked_below_contains(slots, all, waker);
    match direction.waker {
        Some(polling) => {
            let parked = direction.parked();
            assert(parked[0] == polling);
            if parked.contains(waker) {
                let i = parked.index_of(waker);
                if i > 0 {
                    assert(others[i - 1] == waker);
                }
            }
            if others.contains(waker) {
                assert(parked[others.index_of(waker) + 1] == waker);
            }
        },
        None => {
            assert(direction.parked() =~= others);
        },
    }
    if others.len() == 0 {
        assert forall|key: usize| #[trigger] slots.contains_key(key) implies slots[key] is None by {
            if slots[key] is Some {
                lemma_parked_below_contains(slots, all, slots[key]->0);
            }
        }
    } else {
        lemma_parked_below_contains(slots, all, others[0]);
        assert(others.contains(others[0]));
    }
}

/// A delivery wakes exactly those who wait on a side that the event is one of. Afterwards nobody
/// waits on such a side, and the other side is as it was.
pub proof fn delivery_wakes_those_who_wait(source: SourceView, event: Event, tick: usize, waker: Waker)
    ensures
        source.woken(event).contains(waker) <==> {
            ||| event.readable && source.read.parked().contains(waker)
            ||| event.writable && source.write.parked().contains(waker)
        },
        forall|side: Side|
            event.touches(side) ==> #[trigger] source.delivered(event, tick).side(side).is_empty(),
        forall|side: Side|
            !event.touches(side) ==> #[trigger] source.delivered(event, tick).side(side)
                == source.side(side),
{
    let writers = if event.writable {
        source.write.parked()
    } else {
        Seq::empty()
    };
    let readers = if event.readable {
        source.read.parked()
    } else {
        Seq::empty()
    };
    let woken = source.woken(event);
    assert(woken == writers + readers);
    if writers.contains(waker) {
        assert(woken[writers.index_of(waker)] == waker);
    }
    if readers.contains(waker) {
        assert(woken[writers.len() + readers.index_of(waker)] == waker);
    }
    if woken.contains(waker) {
        let i = woken.index_of(waker);
        if i < writers.len() {
            assert(writers[i] == waker);
        } else {
            assert(readers[i - writers.len()] == waker);
        }
    }
}

/// A task that is parked, its waker being in place, is woken by the next delivery of its side; so
/// is one that parks.
pub proof fn parked_task_is_woken(
    source: SourceView,
    side: Side,
    waker: Waker,
    ticker: usize,
    event: Event,
)
    requires
        event.touches(side),
    ensures
        source.side(side).waker == Some(waker) ==> source.woken(event).contains(waker),
        source.parking(side, waker, ticker).woken(event).contains(waker),
{
    let parked = source.parking(side, waker, ticker);
    parked_are_those_who_wait(source.side(side), waker);
    delivery_wakes_those_who_wait(source, event, ticker, waker);
    parked_are_those_who_wait(parked.side(side), waker);
    delivery_wakes_those_who_wait(parked, event, ticker, waker);
}

/// A task that polls and is not ready is woken by the next delivery of its side: by its own waker,
/// or by one in place that wakes the same task. So is one that arms the source.
pub proof fn registered_task_is_woken(
    before: SourceView,
    side: Side,
    waker: Waker,
    ticker: usize,
    after: SourceView,
    parked: Parked,
    event: Event,
)
    requires
        before.registers(side, waker, ticker, after, parked) || before.arms(
            side,
            waker,
            ticker,
            after,
            parked,
        ),
        event.touches(side),
    ensures
        exists|woken: Waker| #[trigger]
            after.woken(event).contains(woken) && (woken == waker || wakes_same_task(
                woken,
                waker,
            )),
{
    let present = after.side(side).waker->0;
    parked_task_is_woken(after, side, present, ticker, event);
    assert(after.woken(event).contains(present));
}

/// Registering a waker forgets nobody: a waker that was in place stays, or is handed back to be
/// woken.
pub proof fn registering_forgets_nobody(
    before: SourceView,
    side: Side,
    waker: Waker,
    ticker: usize,
    after: SourceView,
    parked: Parked,
)
    requires
        before.registers(side, waker, ticker, after, parked),
    ensures
        before.side(side).waker matches Some(present) ==> after.side(side).waker == Some(present)
            || parked.replaced == Some(present),
        after.side(side).slots == before.side(side).slots,
{
}

/// What the poller was told to watch covers all that wait.
pub open spec fn covers(told: Event, source: SourceView) -> bool {
    &&& !source.read.is_empty() ==> told.readable
    &&& !source.write.is_empty() ==> told.writable
}

/// What the poller is told to watch after a step that left `after`, if the step came with the
/// command `update`; without one, it is what it was.
pub open spec fn told_after(
    told: Event,
    after: SourceView,
    update: Option<PollerOp>,
) -> Event {
    match update {
        Some(_) => after.interest(),
        None => told,
    }
}

/// As long as every command is carried out, the poller watches for all that wait: parking a task
/// keeps it so, and the command, if there is one, states the interest of all that wait.
pub proof fn parking_keeps_interest(
    told: Event,
    before: SourceView,
    side: Side,
    waker: Waker,
    ticker: usize,
    after: SourceView,
    parked: Parked,
)
    requires
        covers(told, before),
        before.registers(side, waker, ticker, after, parked),
    ensures
        covers(told_after(told, after, parked.update), after),
        parked.update matches Some(op) ==> op == after.update_op(),
{
    let b = before.side(side);
    let a = after.side(side);
    if !b.is_empty() {
        if b.waker is None {
            let key = choose|key: usize| #[trigger] b.slots.contains_key(key) && b.slots[key] is Some;
            assert(a.slots.contains_key(key));
        }
    }
}

/// An event ends what the poller watches for; if somebody still waits after it was delivered, the
/// command that follows makes the poller watch for them.
pub proof fn delivery_keeps_interest(source: SourceView, event: Event, tick: usize)
    ensures
        ({
            let after = source.delivered(event, tick);
            let ended = Event { key: source.key, readable: false, writable: false };
            &&& covers(told_after(ended, after, after.rearm()), after)
            &&& after.rearm() matches Some(op) ==> op == after.update_op()
            &&& after.rearm() is None ==> after.read.is_empty() && after.write.is_empty()
        }),
{
}

/// A future that waits keeps it so that the poller watches for all that wait.
pub proof fn waiting_future_keeps_interest(
    told: Event,
    future: Ready,
    before: SourceView,
    waker: Waker,
    ticker: usize,
    future_after: Ready,
    after: SourceView,
    poll: PollReady,
)
    requires
        covers(told, before),
        future.polls(before, waker, ticker, future_after, after, poll),
    ensures
        match poll {
            PollReady::Ready => covers(told, after),
            PollReady::Pending(parked) => {
                &&& covers(told_after(told, after, parked.update), after)
                &&& parked.update matches Some(op) ==> op == after.update_op()
            },
        },
{
}

/// In edge mode a future that waits is ready exactly if deliveries of its side happened since its
/// first poll, but for a multiple of 2^64 of them.
pub proof fn edge_future_ready_iff_delivered(
    future: Ready,
    source: SourceView,
    ticker: usize,
    key: usize,
    deliveries: Seq<(Event, usize)>,
)
    requires
        future.wake_mode == WakeMode::Edge,
    ensures
        future.captured(source, ticker, key).is_ready(after_deliveries(source, deliveries)) <==>
            count_on(deliveries, future.side) as int % event_counts() != 0,
{
    lemma_deliveries_count(source, deliveries, future.side);
    lemma_counted_step(source.side(future.side).events, count_on(deliveries, future.side));
}

/// In level mode a future that waits is ready exactly if the last delivery of its side was in
/// another round than that of its first poll, and in another one than the last delivery before.
pub proof fn level_future_ready_iff_delivered_in_other_round(
    future: Ready,
    source: SourceView,
    ticker: usize,
    key: usize,
    deliveries: Seq<(Event, usize)>,
)
    requires
        future.wake_mode == WakeMode::Level,
    ensures
        ({
            let before = source.side(future.side).tick;
            let round = last_round(deliveries, future.side, before);
            future.captured(source, ticker, key).is_ready(after_deliveries(source, deliveries))
                <==> round != ticker && round != before
        }),
{
    lemma_deliveries_tick(source, deliveries, future.side);
}

/// A waiting future is woken by the next delivery of its side.
pub proof fn waiting_future_is_woken(
    source: SourceView,
    side: Side,
    key: usize,
    waker: Waker,
    event: Event,
)
    requires
        event.touches(side),
    ensures
        source.with_slot(side, key, waker).woken(event).contains(waker),
{
    let waiting = source.with_slot(side, key, waker);
    assert(waiting.side(side).slots.contains_key(key));
    parked_are_those_who_wait(waiting.side(side), waker);
    delivery_wakes_those_who_wait(waiting, event, 0, waker);
}

/// A future that gives its slot back leaves the source as it was before the future waited.
pub proof fn cancelled_future_leaves_no_trace(
    source: SourceView,
    side: Side,
    key: usize,
    waker: Waker,
)
    requires
        !source.side(side).slots.contains_key(key),
    ensures
        source.with_slot(side, key, waker).without_slot(side, key) == source,
{
    assert(source.side(side).slots.insert(key, Some(waker)).remove(key) =~= source.side(side).slots);
}

/// The other side.
pub open spec fn opposite(side: Side) -> Side {
    match side {
        Side::Read => Side::Write,
        Side::Write => Side::Read,
    }
}

/// The two sides of a source are told apart everywhere, and to change one leaves the other and the
/// rest of the source as they are.
pub proof fn sides_are_apart(source: SourceView, direction: DirectionView, event: Event)
    ensures
        source.side(Side::Read) == source.read,
        source.side(Side::Write) == source.write,
        event.touches(Side::Read) <==> event.readable,
        event.touches(Side::Write) <==> event.writable,
        source.with(Side::Read, direction) == (SourceView { read: direction, ..source }),
        source.with(Side::Write, direction) == (SourceView { write: direction, ..source }),
{
}

/// A direction is empty exactly if no polling task's waker is in place and no slot holds one.
pub proof fn empty_iff_nobody_waits(direction: DirectionView)
    ensures
        direction.is_empty() <==> {
            &&& direction.waker is None
            &&& !exists|key: usize| #[trigger]
                direction.slots.contains_key(key) && direction.slots[key] is Some
        },
{
}

/// The interest in a source is that of those who wait: in reading exactly if somebody waits to
/// read, in writing exactly if somebody waits to write.
pub proof fn interest_is_that_of_those_who_wait(source: SourceView)
    ensures
        source.interest().key == source.key,
        source.interest().readable <==> {
            ||| source.read.waker is Some
            ||| exists|key: usize| #[trigger]
                source.read.slots.contains_key(key) && source.read.slots[key] is Some
        },
        source.interest().writable <==> {
            ||| source.write.waker is Some
            ||| exists|key: usize| #[trigger]
                source.write.slots.contains_key(key) && source.write.slots[key] is Some
        },
{
}

/// `keys` are the slots that hold a waker and are below `n`, by ascending key.
pub open spec fn holding_slots(
    slots: Map<usize, Option<Waker>>,
    n: nat,
    keys: Seq<usize>,
) -> bool {
    &&& forall|i: int, j: int| 0 <= i < j < keys.len() ==> keys[i] < keys[j]
    &&& forall|key: usize| #[trigger]
        keys.contains(key) <==> key < n && slots.contains_key(key) && slots[key] is Some
}

proof fn lemma_parked_below_keys(slots: Map<usize, Option<Waker>>, n: nat) -> (keys: Seq<usize>)
    requires
        n <= usize::MAX + 1,
    ensures
        holding_slots(slots, n, keys),
        parked_below(slots, n).len() == keys.len(),
        forall|i: int| 0 <= i < keys.len() ==> slots[#[trigger] keys[i]] == Some(
            parked_below(slots, n)[i],
        ),
    decreases n,
{
    if n == 0 {
        Seq::empty()
    } else {
        let m = (n - 1) as nat;
        let rest = lemma_parked_below_keys(slots, m);
        let key = m as usize;
        if slots.contains_key(key) && slots[key] is Some {
            let keys = rest.push(key);
            assert forall|i: int, j: int| 0 <= i < j < keys.len() implies keys[i] < keys[j] by {
                assert(rest.contains(rest[i]));
            }
            assert forall|k: usize| #[trigger] keys.contains(k) <==> k < n && slots.contains_key(k)
                && slots[k] is Some by {
                if keys.contains(k) {
                    let i = keys.index_of(k);
                    if i < rest.len() {
                        assert(rest.contains(rest[i]));
                    }
                }
                if k < n && slots.contains_key(k) && slots[k] is Some {
                    if k == key {
                        assert(keys[rest.len() as int] == k);
                    } else {
                        assert(rest.contains(k));
                        assert(keys[rest.index_of(k)] == k);
                    }
                }
            }
            keys
        } else {
            rest
        }
    }
}

/// Those who wait on a direction are listed once each: the polling task first, then the futures by
/// ascending slot.
pub proof fn parked_are_listed_once(direction: DirectionView)
    ensures
        exists|keys: Seq<usize>|
            {
                let first: int = if direction.waker is Some {
                    1
                } else {
                    0
                };
                &&& #[trigger] holding_slots(direction.slots, usize::MAX as nat + 1, keys)
                &&& direction.parked().len() == first + keys.len()
                &&& direction.waker matches Some(polling) ==> direction.parked()[0] == polling
                &&& forall|i: int|
                    0 <= i < keys.len() ==> direction.slots[#[trigger] keys[i]] == Some(
                        direction.parked()[first + i],
                    )
            },
{
    let keys = lemma_parked_below_keys(direction.slots, usize::MAX as nat + 1);
    let others = parked_below(direction.slots, usize::MAX as nat + 1);
    if direction.waker is None {
        assert(direction.parked() =~= others);
    } else {
        assert forall|i: int| 0 <= i < keys.len() implies direction.slots[#[trigger] keys[i]]
            == Some(direction.parked()[1 + i]) by {
            assert(direction.parked()[1 + i] == others[i]);
        }
    }
    assert(holding_slots(direction.slots, usize::MAX as nat + 1, keys));
}

/// What a delivery leaves of a side that the event is one of: nobody waits there, the slots stay
/// with their futures, the event is counted and its round noted, and no snapshot moves. The rest
/// of the source is as it was.
pub proof fn delivery_counts_and_empties(source: SourceView, event: Event, tick: usize, side: Side)
    ensures
        ({
            let after = source.delivered(event, tick);
            let b = source.side(side);
            let a = after.side(side);
            let emitted = event.touches(side);
            &&& after.registration == source.registration
            &&& after.key == source.key
            &&& after.wake_mode == source.wake_mode
            &&& a.ticks == b.ticks
            &&& a.captured_events == b.captured_events
            &&& !emitted ==> a == b
            &&& emitted ==> {
                &&& a.tick == tick
                &&& a.events == (b.events + 1) % (u64::MAX + 1)
                &&& a.waker is None
                &&& forall|key: usize| #[trigger]
                    a.slots.contains_key(key) <==> b.slots.contains_key(key)
                &&& forall|key: usize| #[trigger] a.slots.contains_key(key) ==> a.slots[key] is None
            }
        }),
{
}

/// The wakers of a delivery are those of the writers, if it is writable, and then those of the
/// readers, if it is readable, each as often as it waits.
pub proof fn delivery_wakes_writers_first(source: SourceView, event: Event)
    ensures
        ({
            let w = if event.writable {
                source.write.parked().len()
            } else {
                0
            };
            let r = if event.readable {
                source.read.parked().len()
            } else {
                0
            };
            &&& source.woken(event).len() == w + r
            &&& forall|i: int|
                0 <= i < w ==> #[trigger] source.woken(event)[i] == source.write.parked()[i]
            &&& forall|i: int|
                w <= i < w + r ==> #[trigger] source.woken(event)[i] == source.read.parked()[i - w]
        }),
{
}

/// Parking puts the task's waker in place and takes the snapshot that its mode compares. It leaves
/// the counts, the futures and the other side as they are. The waker that was in place is handed
/// back; the poller is told exactly if nobody waited on that side, and then of all that wait.
pub proof fn parking_changes_only_the_polling_task(
    source: SourceView,
    side: Side,
    waker: Waker,
    ticker: usize,
)
    ensures
        ({
            let after = source.parking(side, waker, ticker);
            let left = source.parking_leaves(side, after);
            let b = source.side(side);
            let a = after.side(side);
            let b_other = source.side(opposite(side));
            let a_other = after.side(opposite(side));
            &&& after.registration == source.registration
            &&& after.key == source.key
            &&& after.wake_mode == source.wake_mode
            &&& a_other == b_other
            &&& a.waker == Some(waker)
            &&& a.slots == b.slots
            &&& a.tick == b.tick
            &&& a.events == b.events
            &&& match source.wake_mode {
                WakeMode::Level => a.ticks == Some((ticker, b.tick)) && a.captured_events is None,
                WakeMode::Edge => a.captured_events == Some(b.events) && a.ticks is None,
            }
            &&& left.replaced == b.waker
            &&& left.update is Some <==> {
                &&& b.waker is None
                &&& forall|key: usize| #[trigger] b.slots.contains_key(key) ==> b.slots[key] is None
            }
            &&& left.update matches Some(op) ==> states_interest(op, after)
        }),
{
}

/// `op` tells the poller of exactly those who wait on `source`. Files need no telling.
pub open spec fn states_interest(op: PollerOp, source: SourceView) -> bool {
    let interest = Event {
        key: source.key,
        readable: !source.read.is_empty(),
        writable: !source.write.is_empty(),
    };
    match source.registration {
        Registration::Socket(socket) => op == PollerOp::Modify { socket, interest },
        Registration::Handle(handle) => op == PollerOp::ModifyWaitable { handle, interest },
        Registration::File(_) => op == PollerOp::Nothing,
    }
}

/// In edge mode a task that parks is ready exactly if deliveries of its side happen afterwards,
/// but for a multiple of 2^64 of them.
pub proof fn edge_parking_notices_every_delivery(
    source: SourceView,
    side: Side,
    waker: Waker,
    ticker: usize,
    deliveries: Seq<(Event, usize)>,
)
    requires
        source.wake_mode == WakeMode::Edge,
    ensures
        after_deliveries(source.parking(side, waker, ticker), deliveries).ready(side) <==> count_on(
            deliveries,
            side,
        ) as int % event_counts() != 0,
{
    edge_ready_iff_delivered(source.parking(side, waker, ticker), side, deliveries);
}

/// To consume a delivery clears the snapshot of that side and changes nothing else: whoever waits
/// goes on waiting.
pub proof fn consuming_clears_only_the_snapshot(source: SourceView, side: Side)
    ensures
        ({
            let after = source.released(side);
            let b = source.side(side);
            let a = after.side(side);
            let b_other = source.side(opposite(side));
            let a_other = after.side(opposite(side));
            &&& after.registration == source.registration
            &&& after.key == source.key
            &&& after.wake_mode == source.wake_mode
            &&& a_other == b_other
            &&& a.ticks is None
            &&& a.captured_events is None
            &&& a.tick == b.tick
            &&& a.events == b.events
            &&& a.waker == b.waker
            &&& a.slots == b.slots
        }),
{
}

/// With a waker in place that is known to wake the same task, registering changes nothing and
/// leaves nothing to do. In all other cases the new waker is in place afterwards, and the one that
/// was there is handed back.
pub proof fn answer_decides_whose_waker_is_in_place(
    before: SourceView,
    side: Side,
    waker: Waker,
    ticker: usize,
    same_task: bool,
    after: SourceView,
    parked: Parked,
)
    requires
        before.registers_known(side, waker, ticker, same_task, after, parked),
    ensures
        same_task && before.side(side).waker is Some ==> {
            &&& after == before
            &&& parked.replaced is None
            &&& parked.update is None
        },
        !same_task || before.side(side).waker is None ==> {
            &&& after.side(side).waker == Some(waker)
            &&& parked.replaced == before.side(side).waker
            &&& after.side(side).slots == before.side(side).slots
            &&& after.side(opposite(side)) == before.side(opposite(side))
            &&& match before.wake_mode {
                WakeMode::Level => after.side(side).ticks == Some(
                    (ticker, before.side(side).tick),
                ),
                WakeMode::Edge => after.side(side).captured_events == Some(
                    before.side(side).events,
                ),
            }
            &&& parked.update is Some <==> before.side(side).is_empty()
            &&& parked.update matches Some(op) ==> states_interest(op, after)
        },
{
}

/// Arming changes one side only, counts nothing and drops no future; afterwards a waker is in
/// place with a snapshot of the present count in edge mode, and of the last round in level mode.
pub proof fn arming_takes_a_current_snapshot(
    before: SourceView,
    side: Side,
    waker: Waker,
    ticker: usize,
    after: SourceView,
    parked: Parked,
)
    requires
        before.wf(),
        before.arms(side, waker, ticker, after, parked),
    ensures
        ({
            let b = before.side(side);
            let a = after.side(side);
            let b_other = before.side(opposite(side));
            let a_other = after.side(opposite(side));
            &&& a_other == b_other
            &&& a.waker is Some
            &&& a.slots == b.slots
            &&& a.tick == b.tick
            &&& a.events == b.events
            &&& before.wake_mode == WakeMode::Edge ==> a.captured_events == Some(b.events)
            &&& before.wake_mode == WakeMode::Level ==> (a.ticks matches Some((_, last)) && last
                == b.tick)
            &&& after.wake_mode == before.wake_mode
            &&& after.key == before.key
            &&& after.registration == before.registration
        }),
{
}

/// After any poll of a future that is pending, the first or a later one, the next delivery of its
/// side wakes the waker of that very poll. The other futures and the rest of the source are as
/// they were, and a future keeps its slot.
pub proof fn pending_future_is_woken_by_its_last_waker(
    future: Ready,
    source: SourceView,
    waker: Waker,
    ticker: usize,
    after: Ready,
    source_after: SourceView,
    parked: Parked,
    event: Event,
)
    requires
        future.polls(source, waker, ticker, after, source_after, PollReady::Pending(parked)),
    ensures
        event.touches(future.side) ==> source_after.woken(event).contains(waker),
        after.side == future.side,
        after.wake_mode == future.wake_mode,
        future.index is Some ==> after.index == future.index,
        ({
            let b = source.side(future.side);
            let a = source_after.side(future.side);
            let b_other = source.side(opposite(future.side));
            let a_other = source_after.side(opposite(future.side));
            &&& after.index matches Some(own) && a.slots.contains_key(own) && a.slots[own] == Some(
                waker,
            ) && (future.index is None ==> !b.slots.contains_key(own)) && forall|key: usize|
                key != own ==> {
                    &&& #[trigger] a.slots.contains_key(key) <==> b.slots.contains_key(key)
                    &&& b.slots.contains_key(key) ==> a.slots[key] == b.slots[key]
                }
            &&& a_other == b_other
            &&& a.waker == b.waker
            &&& a.tick == b.tick
            &&& a.events == b.events
            &&& a.ticks == b.ticks
            &&& a.captured_events == b.captured_events
            &&& source_after.registration == source.registration
            &&& source_after.key == source.key
            &&& source_after.wake_mode == source.wake_mode
            &&& parked.replaced is None
            &&& parked.update is Some <==> b.is_empty()
            &&& parked.update matches Some(op) ==> states_interest(op, source_after)
        }),
{
    let own = after.index->0;
    let side = future.side;
    assert(source_after.side(side).slots.contains_key(own));
    parked_are_those_who_wait(source_after.side(side), waker);
    delivery_wakes_those_who_wait(source_after, event, ticker, waker);
}

/// A future is ready once events were delivered since its first pending poll; later polls do not
/// move its snapshot, so that no delivery in between is missed. A poll that is ready leaves all as
/// it is.
pub proof fn future_answers_by_its_first_poll(
    future: Ready,
    source: SourceView,
    waker: Waker,
    ticker: usize,
    after: Ready,
    source_after: SourceView,
    poll: PollReady,
    deliveries: Seq<(Event, usize)>,
)
    requires
        future.polls(source, waker, ticker, after, source_after, poll),
    ensures
        poll is Ready ==> after == future && source_after == source,
        poll is Ready <==> match future.wake_mode {
            WakeMode::Level => future.ticks matches Some((round, last)) && source.side(
                future.side,
            ).tick != round && source.side(future.side).tick != last,
            WakeMode::Edge => future.captured_events matches Some(count) && source.side(
                future.side,
            ).events != count,
        },
        poll is Pending && future.index is Some ==> after == future,
        poll is Pending && future.index is None && future.wake_mode == WakeMode::Edge ==> (
        after.is_ready(after_deliveries(source_after, deliveries)) <==> count_on(
            deliveries,
            future.side,
        ) as int % event_counts() != 0),
        poll is Pending && future.index is None && future.wake_mode == WakeMode::Level ==> {
            let before = source.side(future.side).tick;
            let round = last_round(deliveries, future.side, before);
            after.is_ready(after_deliveries(source_after, deliveries)) <==> round != ticker && round
                != before
        },
{
    if poll is Pending && future.index is None {
        lemma_deliveries_count(source_after, deliveries, future.side);
        lemma_deliveries_tick(source_after, deliveries, future.side);
        lemma_counted_step(source.side(future.side).events, count_on(deliveries, future.side));
    }
}

/// A future that gives its slot back takes nobody else's waker along.
pub proof fn cancelling_frees_one_slot(source: SourceView, side: Side, own: usize)
    ensures
        ({
            let after = source.without_slot(side, own);
            let b = source.side(side);
            let a = after.side(side);
            let b_other = source.side(opposite(side));
            let a_other = after.side(opposite(side));
            &&& a_other == b_other
            &&& a.waker == b.waker
            &&& a.tick == b.tick
            &&& a.events == b.events
            &&& a.ticks == b.ticks
            &&& a.captured_events == b.captured_events
            &&& after.registration == source.registration
            &&& after.key == source.key
            &&& after.wake_mode == source.wake_mode
            &&& !a.slots.contains_key(own)
            &&& forall|key: usize|
                key != own ==> {
                    &&& #[trigger] a.slots.contains_key(key) <==> b.slots.contains_key(key)
                    &&& b.slots.contains_key(key) ==> a.slots[key] == b.slots[key]
                }
        }),
{
}

/// A future that was polled and is dropped is forgotten: its slot is free, and a waker that nobody
/// else left on the source is not woken any more. All other slots and the rest of the source are
/// as they were. One that waited alone since its first poll leaves the source as that poll found
/// it.
pub proof fn dropped_future_is_forgotten(
    future: Ready,
    source: SourceView,
    waker: Waker,
    ticker: usize,
    after: Ready,
    source_after: SourceView,
    parked: Parked,
    event: Event,
)
    requires
        future.polls(source, waker, ticker, after, source_after, PollReady::Pending(parked)),
    ensures
        ({
            let left = after.cancelled(source_after);
            let b = source_after.side(future.side);
            let a = left.side(future.side);
            &&& future.index is None ==> left == source
            &&& after.index matches Some(own) && !a.slots.contains_key(own) && forall|key: usize|
                key != own ==> {
                    &&& #[trigger] a.slots.contains_key(key) <==> b.slots.contains_key(key)
                    &&& b.slots.contains_key(key) ==> a.slots[key] == b.slots[key]
                }
            &&& left.side(opposite(future.side)) == source_after.side(opposite(future.side))
            &&& a.waker == b.waker
            &&& a.tick == b.tick
            &&& a.events == b.events
            &&& future.index is None && !source.woken(event).contains(waker) ==> !left.woken(
                event,
            ).contains(waker)
        }),
        future.index is None ==> future.cancelled(source) == source,
{
    let own = after.index->0;
    if future.index is None {
        cancelled_future_leaves_no_trace(source, future.side, own, waker);
    }
    cancelling_frees_one_slot(source_after, future.side, own);
}

/// What registering on `side` leaves to do is what `parked` says: a waker that is in place no more
/// is to be woken, and the poller is to be told of all who wait if nobody waited on that side.
pub open spec fn leaves_to_do(
    before: SourceView,
    side: Side,
    after: SourceView,
    parked: Parked,
) -> bool {
    &&& before.side(side).waker matches Some(present) ==> after.side(side).waker == Some(present)
        || parked.replaced == Some(present)
    &&& before.side(side).waker is None ==> parked.replaced is None
    &&& parked.update is Some <==> {
        &&& before.side(side).waker is None
        &&& !exists|key: usize| #[trigger]
            before.side(side).slots.contains_key(key) && before.side(side).slots[key] is Some
    }
    &&& parked.update matches Some(op) ==> states_interest(op, after)
}

/// Registering a waker and arming a source say what they leave to do.
pub proof fn nothing_is_left_undone(
    before: SourceView,
    side: Side,
    waker: Waker,
    ticker: usize,
    after: SourceView,
    parked: Parked,
)
    requires
        before.registers(side, waker, ticker, after, parked) || before.arms(
            side,
            waker,
            ticker,
            after,
            parked,
        ),
    ensures
        leaves_to_do(before, side, after, parked),
        after.side(opposite(side)) == before.side(opposite(side)),
{
    empty_iff_nobody_waits(before.side(side));
    consuming_clears_only_the_snapshot(before, side);
    empty_iff_nobody_waits(before.released(side).side(side));
}

/// A poll is ready exactly if a delivery was noticed, which it consumes while all who wait go on
/// waiting. Otherwise it registers the task, and the next event of its side wakes that task.
pub proof fn poll_consumes_or_registers(
    before: SourceView,
    side: Side,
    waker: Waker,
    ticker: usize,
    after: SourceView,
    poll: PollReady,
    event: Event,
)
    requires
        before.polled(side, waker, ticker, after, poll),
        event.touches(side),
    ensures
        poll is Ready <==> before.ready(side),
        after.side(opposite(side)) == before.side(opposite(side)),
        after.side(side).slots == before.side(side).slots,
        after.side(side).tick == before.side(side).tick,
        after.side(side).events == before.side(side).events,
        match poll {
            PollReady::Ready => {
                &&& !after.ready(side)
                &&& after.side(side).ticks is None
                &&& after.side(side).captured_events is None
                &&& after.side(side).waker == before.side(side).waker
            },
            PollReady::Pending(parked) => {
                &&& leaves_to_do(before, side, after, parked)
                &&& exists|woken: Waker| #[trigger]
                    after.woken(event).contains(woken) && (woken == waker || wakes_same_task(
                        woken,
                        waker,
                    ))
            },
        },
{
    match poll {
        PollReady::Ready => {
            consuming_clears_only_the_snapshot(before, side);
            delivery_is_consumed_once(before, side, Seq::empty());
        },
        PollReady::Pending(parked) => {
            nothing_is_left_undone(before, side, waker, ticker, after, parked);
            registered_task_is_woken(before, side, waker, ticker, after, parked, event);
        },
    }
}

/// Registering either keeps a waker that wakes the same task, and then changes nothing, or parks
/// the task anew, with a snapshot that is taken in the present round.
pub proof fn registering_keeps_or_parks_anew(
    before: SourceView,
    side: Side,
    waker: Waker,
    ticker: usize,
    after: SourceView,
    parked: Parked,
)
    requires
        before.registers(side, waker, ticker, after, parked),
    ensures
        ({
            let b = before.side(side);
            let a = after.side(side);
            ||| {
                &&& b.waker matches Some(present) && wakes_same_task(present, waker)
                &&& after == before
                &&& parked.replaced is None
                &&& parked.update is None
            }
            ||| {
                &&& a.waker == Some(waker)
                &&& match before.wake_mode {
                    WakeMode::Level => a.ticks == Some((ticker, b.tick)),
                    WakeMode::Edge => a.captured_events == Some(b.events),
                }
                &&& a.tick == b.tick
                &&& a.events == b.events
                &&& parked.replaced == b.waker
                &&& parked.update is Some <==> b.is_empty()
                &&& parked.update matches Some(op) ==> states_interest(op, after)
            }
        }),
        after.side(opposite(side)) == before.side(opposite(side)),
        after.side(side).slots == before.side(side).slots,
        after.registration == before.registration,
        after.key == before.key,
        after.wake_mode == before.wake_mode,
{
}

/// After a delivery the poller is told exactly if somebody still waits on the source, on either
/// side, and then of exactly those who do.
pub proof fn rearming_is_for_those_who_still_wait(source: SourceView)
    ensures
        source.rearm() is Some <==> !source.read.is_empty() || !source.write.is_empty(),
        source.rearm() matches Some(op) ==> states_interest(op, source),
{
}

/// A future that was not polled has neither a slot nor a snapshot, and is not ready whatever was
/// delivered before.
pub proof fn unpolled_future_is_not_ready(mode: WakeMode, side: Side, source: SourceView)
    ensures
        ({
            let future = Ready::unpolled(mode, side);
            &&& future.wake_mode == mode
            &&& future.side == side
            &&& future.index is None
            &&& future.ticks is None
            &&& future.captured_events is None
            &&& !future.is_ready(source)
        }),
{
}

} // verus!
