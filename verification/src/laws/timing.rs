//! Laws of timers: each fires once, in order, and not before it is due.

use crate::direction::next_count;
use crate::reactor::{shorter_wait, AfterWait, ReactorView, WaitOutcome};
use crate::timers::{
    apply_op, apply_ops, fires_before, firing_order, is_first, lemma_apply_ops_push, pending,
    wait_until_first, wakers_of, TimerKey, TimerOp,
};
use std::task::Waker;
use vstd::prelude::*;

verus! {

/// A timer operation takes effect whether or not there is room for it to wait: the timers that
/// are set are those before, changed by the operation.
pub proof fn no_timer_operation_is_lost(reactor: ReactorView, op: TimerOp)
    ensures
        reactor.with_op(op).set_timers() == apply_op(reactor.set_timers(), op),
{
    lemma_apply_ops_push(reactor.timers, reactor.timer_ops, op);
    lemma_apply_ops_push(reactor.set_timers(), Seq::empty(), op);
    assert(Seq::<TimerOp>::empty().push(op) =~= seq![op]);
}

/// To process the timers leaves those set that are not due, and no others.
pub proof fn timers_left_are_those_not_due(reactor: ReactorView, now: i128, key: TimerKey)
    ensures
        reactor.fired(now).set_timers() == pending(reactor.set_timers(), now),
        reactor.fired(now).set_timers().contains_key(key) <==> reactor.set_timers().contains_key(
            key,
        ) && now < key.0,
{
}

/// No key is listed twice.
proof fn lemma_firing_order_no_duplicates(
    timers: Map<TimerKey, Waker>,
    now: i128,
    keys: Seq<TimerKey>,
    i: int,
    j: int,
)
    requires
        firing_order(timers, now, keys),
        0 <= i < keys.len(),
        0 <= j < keys.len(),
        keys[i] == keys[j],
    ensures
        i == j,
{
    if i < j {
        assert(fires_before(keys[i], keys[j]));
    } else if j < i {
        assert(fires_before(keys[j], keys[i]));
    }
}

/// A timer that was inserted fires when the timers are processed at its deadline or later: its
/// waker is woken, once, and the timer is not set any more.
pub proof fn due_timer_fires_once(
    reactor: ReactorView,
    when: i128,
    id: usize,
    waker: Waker,
    now: i128,
    keys: Seq<TimerKey>,
)
    requires
        now >= when,
        firing_order(reactor.with_op(TimerOp::Insert(when, id, waker)).set_timers(), now, keys),
    ensures
        ({
            let set = reactor.with_op(TimerOp::Insert(when, id, waker));
            &&& set.fires(now, wakers_of(set.set_timers(), keys))
            &&& exists|i: int|
                0 <= i < keys.len() && #[trigger] keys[i] == (when, id) && wakers_of(
                    set.set_timers(),
                    keys,
                )[i] == waker
            &&& forall|i: int, j: int|
                0 <= i < keys.len() && 0 <= j < keys.len() && #[trigger] keys[i] == (when, id)
                    && #[trigger] keys[j] == (when, id) ==> i == j
            &&& !set.fired(now).set_timers().contains_key((when, id))
        }),
{
    let set = reactor.with_op(TimerOp::Insert(when, id, waker));
    no_timer_operation_is_lost(reactor, TimerOp::Insert(when, id, waker));
    assert(set.set_timers().contains_key((when, id)));
    assert(keys.contains((when, id)));
    let at = keys.index_of((when, id));
    assert(keys[at] == (when, id));
    assert(wakers_of(set.set_timers(), keys)[at] == waker);
    assert forall|i: int, j: int|
        0 <= i < keys.len() && 0 <= j < keys.len() && #[trigger] keys[i] == (when, id)
            && #[trigger] keys[j] == (when, id) implies i == j by {
        lemma_firing_order_no_duplicates(set.set_timers(), now, keys, i, j);
    }
}

/// A timer does not fire before its deadline, and stays set.
pub proof fn early_timer_does_not_fire(
    reactor: ReactorView,
    key: TimerKey,
    now: i128,
    keys: Seq<TimerKey>,
)
    requires
        reactor.set_timers().contains_key(key),
        now < key.0,
        firing_order(reactor.set_timers(), now, keys),
    ensures
        !keys.contains(key),
        reactor.fired(now).set_timers().contains_key(key),
        reactor.fired(now).set_timers()[key] == reactor.set_timers()[key],
{
}

/// A timer that was removed does not fire.
pub proof fn removed_timer_does_not_fire(
    reactor: ReactorView,
    when: i128,
    id: usize,
    now: i128,
    keys: Seq<TimerKey>,
)
    requires
        firing_order(reactor.with_op(TimerOp::Remove(when, id)).set_timers(), now, keys),
    ensures
        !keys.contains((when, id)),
{
    no_timer_operation_is_lost(reactor, TimerOp::Remove(when, id));
}

/// A timer that is inserted and then removed leaves the timers as they were.
pub proof fn insertion_is_undone_by_removal(
    reactor: ReactorView,
    when: i128,
    id: usize,
    waker: Waker,
)
    requires
        !reactor.set_timers().contains_key((when, id)),
    ensures
        reactor.with_op(TimerOp::Insert(when, id, waker)).with_op(
            TimerOp::Remove(when, id),
        ).set_timers() == reactor.set_timers(),
{
    let inserted = reactor.with_op(TimerOp::Insert(when, id, waker));
    no_timer_operation_is_lost(reactor, TimerOp::Insert(when, id, waker));
    no_timer_operation_is_lost(inserted, TimerOp::Remove(when, id));
    assert(reactor.set_timers().insert((when, id), waker).remove((when, id))
        =~= reactor.set_timers());
}

/// Timers fire by deadline, and those with one deadline by number: there is one order only.
pub proof fn firing_order_is_unique(
    timers: Map<TimerKey, Waker>,
    now: i128,
    a: Seq<TimerKey>,
    b: Seq<TimerKey>,
)
    requires
        firing_order(timers, now, a),
        firing_order(timers, now, b),
    ensures
        a == b,
{
    assert forall|key: TimerKey| #[trigger] a.contains(key) <==> b.contains(key) by {
        assert(a.contains(key) <==> timers.contains_key(key) && key.0 <= now);
        assert(b.contains(key) <==> timers.contains_key(key) && key.0 <= now);
    }
    lemma_sorted_unique(a, b);
}

proof fn lemma_sorted_unique(a: Seq<TimerKey>, b: Seq<TimerKey>)
    requires
        forall|i: int, j: int| 0 <= i < j < a.len() ==> fires_before(a[i], a[j]),
        forall|i: int, j: int| 0 <= i < j < b.len() ==> fires_before(b[i], b[j]),
        forall|key: TimerKey| #[trigger] a.contains(key) <==> b.contains(key),
    ensures
        a == b,
    decreases a.len(),
{
    if a.len() == 0 {
        if b.len() > 0 {
            assert(b.contains(b[0]));
            assert(a.contains(b[0]));
        }
        assert(a =~= b);
    } else {
        assert(a.contains(a.last()));
        assert(b.contains(a.last()));
        assert(b.contains(b.last()));
        assert(a.contains(b.last()));
        let i = b.index_of(a.last());
        let j = a.index_of(b.last());
        if i < b.len() - 1 && j < a.len() - 1 {
            assert(fires_before(b[i], b[b.len() - 1]));
            assert(fires_before(a[j], a[a.len() - 1]));
        }
        assert(a.last() == b.last());
        let last = a.last();
        let c = a.drop_last();
        let d = b.drop_last();
        assert forall|key: TimerKey| #[trigger] c.contains(key) <==> d.contains(key) by {
            if c.contains(key) {
                let k = c.index_of(key);
                assert(a[k] == key);
                assert(a.contains(key));
                assert(fires_before(a[k], a[a.len() - 1]));
                let m = b.index_of(key);
                assert(d[m] == key);
            }
            if d.contains(key) {
                let k = d.index_of(key);
                assert(b[k] == key);
                assert(b.contains(key));
                assert(a.contains(key));
                assert(fires_before(b[k], b[b.len() - 1]));
                let m = a.index_of(key);
                assert(c[m] == key);
            }
        }
        lemma_sorted_unique(c, d);
        assert(a =~= c.push(last));
        assert(b =~= d.push(last));
    }
}

/// Which wakers are woken, and in which order, is settled by the timers that are set and the time.
pub proof fn fired_wakers_are_settled(
    reactor: ReactorView,
    now: i128,
    a: Seq<Waker>,
    b: Seq<Waker>,
)
    requires
        reactor.fires(now, a),
        reactor.fires(now, b),
    ensures
        a == b,
{
    let set = reactor.set_timers();
    let x = choose|keys: Seq<TimerKey>| #[trigger]
        firing_order(set, now, keys) && a == wakers_of(set, keys);
    let y = choose|keys: Seq<TimerKey>| #[trigger]
        firing_order(set, now, keys) && b == wakers_of(set, keys);
    firing_order_is_unique(set, now, x, y);
}

/// To process the timers at one time and then at a later one is to process them at the later one:
/// the same timers are left, and the same wakers are woken in the same order.
pub proof fn processing_in_steps(
    reactor: ReactorView,
    first: i128,
    second: i128,
    a: Seq<Waker>,
    b: Seq<Waker>,
)
    requires
        first <= second,
        reactor.fires(first, a),
        reactor.fired(first).fires(second, b),
    ensures
        reactor.fired(first).fired(second) == reactor.fired(second),
        reactor.fires(second, a + b),
{
    let set = reactor.set_timers();
    let left = pending(set, first);
    assert(reactor.fired(first).set_timers() == left);
    assert(pending(left, second) =~= pending(set, second));
    let x = choose|keys: Seq<TimerKey>| #[trigger]
        firing_order(set, first, keys) && a == wakers_of(set, keys);
    let y = choose|keys: Seq<TimerKey>| #[trigger]
        firing_order(left, second, keys) && b == wakers_of(left, keys);
    let all = x + y;
    assert forall|i: int, j: int| 0 <= i < j < all.len() implies fires_before(all[i], all[j]) by {
        if j < x.len() {
            assert(fires_before(x[i], x[j]));
        } else if i >= x.len() {
            assert(fires_before(y[i - x.len()], y[j - x.len()]));
        } else {
            assert(x.contains(x[i]));
            assert(y.contains(y[j - x.len()]));
        }
    }
    assert forall|key: TimerKey| #[trigger] all.contains(key) <==> set.contains_key(key) && key.0
        <= second by {
        if all.contains(key) {
            let i = all.index_of(key);
            if i < x.len() {
                assert(x.contains(x[i]));
            } else {
                assert(y.contains(y[i - x.len()]));
            }
        }
        if set.contains_key(key) && key.0 <= second {
            if key.0 <= first {
                assert(x.contains(key));
                assert(all[x.index_of(key)] == key);
            } else {
                assert(left.contains_key(key));
                assert(y.contains(key));
                assert(all[x.len() + y.index_of(key)] == key);
            }
        }
    }
    assert(firing_order(set, second, all));
    assert forall|i: int| 0 <= i < y.len() implies left[#[trigger] y[i]] == set[y[i]] by {
        assert(y.contains(y[i]));
    }
    assert(a + b =~= wakers_of(set, all));
}

/// The wait for the first timer is settled. No timer is due before it is over; when it is over, a
/// timer is due.
pub proof fn wait_ends_when_a_timer_is_due(
    timers: Map<TimerKey, Waker>,
    now: i128,
    nanos: u128,
    other: Option<u128>,
)
    requires
        wait_until_first(timers, now, Some(nanos)),
        wait_until_first(timers, now, other),
    ensures
        other == Some(nanos),
        forall|key: TimerKey| #[trigger]
            timers.contains_key(key) && nanos > 0 ==> key.0 >= now + nanos,
        exists|key: TimerKey| #[trigger] timers.contains_key(key) && key.0 <= now + nanos,
{
    let first = choose|key: TimerKey|
        is_first(timers, key) && nanos == if now < key.0 {
            key.0 - now
        } else {
            0
        };
    assert(timers.contains_key(first));
    match other {
        Some(n) => {
            let second = choose|key: TimerKey|
                is_first(timers, key) && n == if now < key.0 {
                    key.0 - now
                } else {
                    0
                };
            assert(timers.contains_key(second));
        },
        None => {},
    }
}

/// The wait for events is over by the time that the first timer is due, and by the time that the
/// caller set.
pub proof fn wait_is_limited(next_timer: Option<u128>, timeout: Option<u128>)
    ensures
        next_timer matches Some(t) ==> shorter_wait(next_timer, timeout) matches Some(w) && w <= t,
        timeout matches Some(t) ==> shorter_wait(next_timer, timeout) matches Some(w) && w <= t,
        shorter_wait(next_timer, timeout) matches Some(w) ==> next_timer == Some(w) || timeout
            == Some(w),
{
}

/// The number of the timer that is inserted after `n` others, the first of which has number `id`.
pub open spec fn nth_id(id: usize, n: nat) -> int
    decreases n,
{
    if n == 0 {
        id as int
    } else {
        next_count(nth_id(id, (n - 1) as nat), usize::MAX as int)
    }
}

proof fn lemma_nth_id(id: usize, n: nat)
    ensures
        0 <= nth_id(id, n) <= usize::MAX,
        nth_id(id, n) == (id + n) % (usize::MAX + 1),
    decreases n,
{
    let m = usize::MAX + 1;
    if n == 0 {
        vstd::arithmetic::div_mod::lemma_small_mod(id as nat, m as nat);
    } else {
        let k = (n - 1) as nat;
        lemma_nth_id(id, k);
        let c = (id + k) % m;
        vstd::arithmetic::div_mod::lemma_add_mod_noop(id + k, 1, m);
        vstd::arithmetic::div_mod::lemma_small_mod(1, m as nat);
        if c == m - 1 {
            vstd::arithmetic::div_mod::lemma_mod_self_0(m);
        } else {
            vstd::arithmetic::div_mod::lemma_small_mod((c + 1) as nat, m as nat);
        }
    }
}

/// Timers get different numbers, so that timers with one deadline do not take each other's place,
/// as long as fewer were inserted in between than there are numbers.
pub proof fn timer_ids_differ(id: usize, i: nat, j: nat)
    requires
        i < j < i + usize::MAX + 1,
    ensures
        nth_id(id, i) != nth_id(id, j),
{
    let m = usize::MAX + 1;
    lemma_nth_id(id, i);
    lemma_nth_id(id, j);
    if (id + i) % m == (id + j) % m {
        vstd::arithmetic::div_mod::lemma_fundamental_div_mod(id + i, m);
        vstd::arithmetic::div_mod::lemma_fundamental_div_mod(id + j, m);
        let q = (id + j) / m - (id + i) / m;
        assert(m * ((id + j) / m) - m * ((id + i) / m) == m * q) by (nonlinear_arith)
            requires
                q == (id + j) / m - (id + i) / m,
        ;
        assert(m * q == j - i);
        assert(false) by (nonlinear_arith)
            requires
                m * q == j - i,
                0 < j - i < m,
        ;
    }
}

/// The wait is limited by every timer: while any timer is set, there is a wait, which is over by
/// the deadline of each timer that is not due yet and is no time at all if one is due. It is no
/// shorter than that, and there is none exactly if no timer is set.
pub proof fn every_timer_limits_the_wait(
    timers: Map<TimerKey, Waker>,
    now: i128,
    wait: Option<u128>,
)
    requires
        wait_until_first(timers, now, wait),
    ensures
        forall|key: TimerKey| #[trigger]
            timers.contains_key(key) ==> (wait matches Some(nanos) && if key.0 <= now {
                nanos == 0
            } else {
                now + nanos <= key.0
            }),
        wait matches Some(nanos) ==> exists|key: TimerKey| #[trigger]
            timers.contains_key(key) && if key.0 <= now {
                nanos == 0
            } else {
                now + nanos == key.0
            },
{
    match wait {
        Some(nanos) => {
            let first = choose|key: TimerKey|
                is_first(timers, key) && nanos == if now < key.0 {
                    key.0 - now
                } else {
                    0
                };
            assert(timers.contains_key(first));
        },
        None => {},
    }
}

/// A round waits for events no longer than until the deadline of any timer, and not at all if one
/// is due; no longer than the caller said; and without limit only if no timer is set and the
/// caller set no limit.
pub proof fn round_waits_for_no_longer_than_any_timer(
    timers: Map<TimerKey, Waker>,
    now: i128,
    next_timer: Option<u128>,
    timeout: Option<u128>,
)
    requires
        wait_until_first(timers, now, next_timer),
    ensures
        ({
            let wait = shorter_wait(next_timer, timeout);
            &&& forall|key: TimerKey| #[trigger]
                timers.contains_key(key) ==> (wait matches Some(nanos) && if key.0 <= now {
                    nanos == 0
                } else {
                    now + nanos <= key.0
                })
            &&& timeout matches Some(limit) ==> (wait matches Some(nanos) && nanos <= limit)
            &&& wait matches Some(nanos) ==> {
                ||| timeout == Some(nanos)
                ||| exists|key: TimerKey| #[trigger]
                    timers.contains_key(key) && if key.0 <= now {
                        nanos == 0
                    } else {
                        now + nanos == key.0
                    }
            }
        }),
{
    every_timer_limits_the_wait(timers, now, next_timer);
    wait_is_limited(next_timer, timeout);
}

/// To insert a timer sets it with its waker, to remove one unsets it, and no other timer is
/// touched, whether or not there was room for the operation to wait.
pub proof fn operation_changes_one_timer(reactor: ReactorView, op: TimerOp, other: TimerKey)
    ensures
        ({
            let before = reactor.set_timers();
            let after = reactor.with_op(op).set_timers();
            let key = match op {
                TimerOp::Insert(when, id, _) => (when, id),
                TimerOp::Remove(when, id) => (when, id),
            };
            &&& op matches TimerOp::Insert(_, _, waker) ==> after.contains_key(key) && after[key]
                == waker
            &&& op is Remove ==> !after.contains_key(key)
            &&& other != key ==> {
                &&& after.contains_key(other) <==> before.contains_key(other)
                &&& before.contains_key(other) ==> after[other] == before[other]
            }
        }),
{
    no_timer_operation_is_lost(reactor, op);
}

/// While no operation waits, the timers that are set are those in the table.
pub proof fn processed_timers_are_set(reactor: ReactorView)
    ensures
        reactor.timer_ops.len() == 0 ==> reactor.set_timers() == reactor.timers,
{
}

/// The wakers that fire are those of the timers whose deadline is not later than `now`, one each,
/// by deadline, and those with one deadline by number.
pub proof fn due_timers_fire_by_deadline(reactor: ReactorView, now: i128, woken: Seq<Waker>)
    requires
        reactor.fires(now, woken),
    ensures
        exists|keys: Seq<TimerKey>|
            {
                &&& #[trigger] keys.len() == woken.len()
                &&& forall|i: int|
                    0 <= i < keys.len() ==> reactor.set_timers().contains_key(#[trigger] keys[i])
                        && keys[i].0 <= now && woken[i] == reactor.set_timers()[keys[i]]
                &&& forall|i: int, j: int|
                    0 <= i < j < keys.len() ==> (#[trigger] keys[i]).0 < (#[trigger] keys[j]).0 || (
                    keys[i].0 == keys[j].0 && keys[i].1 < keys[j].1)
                &&& forall|key: TimerKey| #[trigger]
                    reactor.set_timers().contains_key(key) && key.0 <= now ==> keys.contains(key)
            },
{
    let set = reactor.set_timers();
    let keys = choose|keys: Seq<TimerKey>| #[trigger]
        firing_order(set, now, keys) && woken == wakers_of(set, keys);
    assert(keys.len() == woken.len());
    assert forall|i: int| 0 <= i < keys.len() implies set.contains_key(#[trigger] keys[i])
        && keys[i].0 <= now && woken[i] == set[keys[i]] by {
        assert(keys.contains(keys[i]));
    }
    assert forall|i: int, j: int| 0 <= i < j < keys.len() implies (#[trigger] keys[i]).0 < (
    #[trigger] keys[j]).0 || (keys[i].0 == keys[j].0 && keys[i].1 < keys[j].1) by {
        assert(fires_before(keys[i], keys[j]));
    }
}

/// Timers fire after a wait exactly if it was to last some time and ended without events: then
/// each timer that is due is woken and not set any more, and each other one stays set. In all
/// other cases the reactor stays as it was and nobody is woken. Events are dispatched, a failure is
/// reported, and otherwise the round ends.
pub proof fn wait_without_events_fires_timers(
    reactor: ReactorView,
    timeout: Option<u128>,
    outcome: WaitOutcome,
    now: i128,
    after: ReactorView,
    woken: Seq<Waker>,
    next: AfterWait,
    key: TimerKey,
)
    requires
        reactor.waited(timeout, outcome, now, after, woken, next),
    ensures
        next is Dispatch <==> outcome is Events,
        next is Fail <==> outcome is Failed,
        next is Finish <==> outcome is NoEvents || outcome is Interrupted,
        after.sources == reactor.sources,
        after.ticker == reactor.ticker,
        if outcome is NoEvents && (timeout matches Some(nanos) ==> nanos > 0) {
            &&& after.set_timers().contains_key(key) <==> reactor.set_timers().contains_key(key)
                && now < key.0
            &&& after.set_timers().contains_key(key) ==> after.set_timers()[key]
                == reactor.set_timers()[key]
            &&& reactor.set_timers().contains_key(key) && key.0 <= now ==> woken.contains(
                reactor.set_timers()[key],
            )
        } else {
            after == reactor && woken =~= Seq::<Waker>::empty()
        },
{
    if outcome is NoEvents && timeout != Some(0u128) {
        let timers = reactor.set_timers();
        let keys = choose|keys: Seq<TimerKey>| #[trigger]
            firing_order(timers, now, keys) && woken == wakers_of(timers, keys);
        timers_left_are_those_not_due(reactor, now, key);
        if timers.contains_key(key) && key.0 <= now {
            assert(keys.contains(key));
            let at = keys.index_of(key);
            assert(woken[at] == timers[key]);
        }
    }
}

/// The reactor after the timers were inserted, the first of them first.
pub open spec fn after_insertions(reactor: ReactorView, timers: Seq<(i128, Waker)>) -> ReactorView
    decreases timers.len(),
{
    if timers.len() == 0 {
        reactor
    } else {
        let (when, waker) = timers.last();
        after_insertions(reactor, timers.drop_last()).with_timer(when, waker)
    }
}

/// The key of the timer that is inserted at position `i` of `timers`.
pub open spec fn inserted_key(
    reactor: ReactorView,
    timers: Seq<(i128, Waker)>,
    i: int,
) -> TimerKey {
    (timers[i].0, after_insertions(reactor, timers.take(i)).next_timer_id)
}

proof fn lemma_insertions(reactor: ReactorView, timers: Seq<(i128, Waker)>)
    ensures
        after_insertions(reactor, timers).next_timer_id == nth_id(
            reactor.next_timer_id,
            timers.len(),
        ),
        after_insertions(reactor, timers).sources == reactor.sources,
        after_insertions(reactor, timers).ticker == reactor.ticker,
    decreases timers.len(),
{
    if timers.len() > 0 {
        lemma_insertions(reactor, timers.drop_last());
        lemma_nth_id(reactor.next_timer_id, timers.len());
    }
}

/// Timers that are inserted one after the other do not take each other's place, whatever their
/// deadlines, as long as there are no more of them than there are numbers: afterwards each is set,
/// with its own waker, and so is each that was set before under another key. Nothing else is set.
pub proof fn inserted_timers_are_all_set(
    reactor: ReactorView,
    timers: Seq<(i128, Waker)>,
    i: int,
    other: TimerKey,
)
    requires
        timers.len() <= usize::MAX,
        0 <= i < timers.len(),
        forall|j: int| 0 <= j < timers.len() ==> other != #[trigger] inserted_key(
            reactor,
            timers,
            j,
        ),
    ensures
        ({
            let set = after_insertions(reactor, timers).set_timers();
            let key = inserted_key(reactor, timers, i);
            &&& set.contains_key(key)
            &&& set[key] == timers[i].1
            &&& set.contains_key(other) <==> reactor.set_timers().contains_key(other)
            &&& set.contains_key(other) ==> set[other] == reactor.set_timers()[other]
        }),
    decreases timers.len(),
{
    let front = timers.drop_last();
    let before = after_insertions(reactor, front);
    let (when, waker) = timers.last();
    let id = before.next_timer_id;
    let n = (timers.len() - 1) as nat;
    lemma_insertions(reactor, front);
    no_timer_operation_is_lost(before, TimerOp::Insert(when, id, waker));
    assert(after_insertions(reactor, timers).set_timers() == before.set_timers().insert(
        (when, id),
        waker,
    ));
    assert(timers.take(n as int) =~= front);
    assert(inserted_key(reactor, timers, n as int) == (when, id));
    assert forall|j: int| 0 <= j < front.len() implies other != #[trigger] inserted_key(
        reactor,
        front,
        j,
    ) by {
        assert(timers.take(j) =~= front.take(j));
        assert(inserted_key(reactor, timers, j) == inserted_key(reactor, front, j));
    }
    if i < n {
        inserted_timers_are_all_set(reactor, front, i, other);
        assert(timers.take(i) =~= front.take(i));
        lemma_insertions(reactor, timers.take(i));
        timer_ids_differ(reactor.next_timer_id, i as nat, n);
    } else if n > 0 {
        inserted_timers_are_all_set(reactor, front, 0, other);
    } else {
        assert(before == reactor);
    }
}

} // verus!
