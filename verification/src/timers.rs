//! Timers: which of them fire when, and how long there is to wait for the next.
//!
//! A point in time is a number of nanoseconds from an origin that the driver chooses, and may lie
//! before it.

use crate::op_queue::{pop_op, queue_capacity, queue_closed, queue_limit, queued_ops};
use concurrent_queue::ConcurrentQueue;
use std::collections::BTreeMap;
use std::task::Waker;
use vstd::laws_cmp::group_laws_cmp;
use vstd::prelude::*;
use vstd::std_specs::btree::{group_btree_axioms, increasing_seq};
use vstd::std_specs::cmp::OrdSpec;

verus! {

/// The deadline of a timer, then the number that tells timers with one deadline apart.
pub type TimerKey = (i128, usize);

/// A single timer operation.
#[derive(Debug)]
pub enum TimerOp {
    /// Wake the task at the deadline.
    Insert(i128, usize, Waker),
    /// Forget the timer.
    Remove(i128, usize),
}

/// `a` fires before `b`.
pub open spec fn fires_before(a: TimerKey, b: TimerKey) -> bool {
    a.0 < b.0 || (a.0 == b.0 && a.1 < b.1)
}

/// `key` is the first of `timers` to fire.
pub open spec fn is_first(timers: Map<TimerKey, Waker>, key: TimerKey) -> bool {
    &&& timers.contains_key(key)
    &&& forall|other: TimerKey| #[trigger]
        timers.contains_key(other) ==> other == key || fires_before(key, other)
}

/// The timers after one operation.
pub open spec fn apply_op(timers: Map<TimerKey, Waker>, op: TimerOp) -> Map<TimerKey, Waker> {
    match op {
        TimerOp::Insert(when, id, waker) => timers.insert((when, id), waker),
        TimerOp::Remove(when, id) => timers.remove((when, id)),
    }
}

/// The timers after the operations, the first of them first.
pub open spec fn apply_ops(timers: Map<TimerKey, Waker>, ops: Seq<TimerOp>) -> Map<TimerKey, Waker>
    decreases ops.len(),
{
    if ops.len() == 0 {
        timers
    } else {
        apply_ops(apply_op(timers, ops[0]), ops.drop_first())
    }
}

/// The timers that have not fired by `now`: their deadline is later.
pub open spec fn pending(timers: Map<TimerKey, Waker>, now: i128) -> Map<TimerKey, Waker> {
    Map::new(|key: TimerKey| timers.contains_key(key) && now < key.0, |key: TimerKey| timers[key])
}

/// `keys` are the timers that fire by `now`, in the order in which they fire.
pub open spec fn firing_order(
    timers: Map<TimerKey, Waker>,
    now: i128,
    keys: Seq<TimerKey>,
) -> bool {
    &&& forall|i: int, j: int| 0 <= i < j < keys.len() ==> fires_before(keys[i], keys[j])
    &&& forall|key: TimerKey| #[trigger]
        keys.contains(key) <==> timers.contains_key(key) && key.0 <= now
}

/// The wakers of the timers `keys`.
pub open spec fn wakers_of(timers: Map<TimerKey, Waker>, keys: Seq<TimerKey>) -> Seq<Waker> {
    keys.map_values(|key: TimerKey| timers[key])
}

/// `wait` is how long there is from `now` until the first of `timers` fires; without timers there
/// is nothing to wait for.
pub open spec fn wait_until_first(timers: Map<TimerKey, Waker>, now: i128, wait: Option<u128>) -> bool {
    match wait {
        Some(nanos) => exists|key: TimerKey|
            is_first(timers, key) && nanos == if now < key.0 {
                key.0 - now
            } else {
                0
            },
        None => timers == Map::<TimerKey, Waker>::empty(),
    }
}

/// An operation put behind the others is applied to what they made.
pub proof fn lemma_apply_ops_push(timers: Map<TimerKey, Waker>, ops: Seq<TimerOp>, op: TimerOp)
    ensures
        apply_ops(timers, ops.push(op)) == apply_op(apply_ops(timers, ops), op),
    decreases ops.len(),
{
    reveal_with_fuel(apply_ops, 2);
    if ops.len() == 0 {
        assert(ops.push(op).drop_first() =~= ops);
    } else {
        assert(ops.push(op).drop_first() =~= ops.drop_first().push(op));
        lemma_apply_ops_push(apply_op(timers, ops[0]), ops.drop_first(), op);
    }
}

/// The first timer to fire, if there is any.
fn first_timer(timers: &BTreeMap<TimerKey, Waker>) -> (first: Option<TimerKey>)
    ensures
        match first {
            Some(key) => is_first(timers@, key),
            None => timers@ == Map::<TimerKey, Waker>::empty(),
        },
{
    broadcast use {group_btree_axioms, group_laws_cmp};

    for item in it: timers.iter()
        invariant
            it.index() == 0,
            increasing_seq(it.seq().map_values(|kv: (&TimerKey, &Waker)| *kv.0)),
            forall|k: TimerKey| #[trigger]
                timers@.contains_key(k) ==> it.seq().contains((&k, &timers@[k])),
    {
        let key: TimerKey = *item.0;
        proof {
            let items = it.seq();
            let keys = items.map_values(|kv: (&TimerKey, &Waker)| *kv.0);
            assert(keys[0] == key);
            assert(timers@.contains_key(*items[0].0));
            assert forall|other: TimerKey| #[trigger] timers@.contains_key(other) implies other
                == key || fires_before(key, other) by {
                let pair = (&other, &timers@[other]);
                assert(items.contains(pair));
                let i = items.index_of(pair);
                assert(keys[i] == other);
                if i > 0 {
                    assert(keys[0].cmp_spec(&keys[i]) is Less);
                }
            }
        }
        return Some(key);
    }
    assert(timers@ =~= Map::empty());
    None
}

/// How long it is from `now` until `when`; no time at all if `when` is not later.
pub fn saturating_nanos_until(when: i128, now: i128) -> (nanos: u128)
    ensures
        nanos == if now < when {
            when - now
        } else {
            0
        },
{
    if when <= now {
        0
    } else if now >= 0 || when < 0 {
        (when - now) as u128
    } else {
        let below_origin: u128 = (-(now + 1)) as u128 + 1;
        when as u128 + below_origin
    }
}

/// Processes queued timer operations, as many as the queue can hold.
pub(crate) fn process_timer_ops(
    queue: &mut ConcurrentQueue<TimerOp>,
    timers: &mut BTreeMap<TimerKey, Waker>,
)
    requires
        queue_limit(*old(queue)) matches Some(limit) && queued_ops(*old(queue)).len() <= limit,
    ensures
        final(timers)@ == apply_ops(old(timers)@, queued_ops(*old(queue))),
        queued_ops(*final(queue)).len() == 0,
        queue_limit(*final(queue)) == queue_limit(*old(queue)),
        queue_closed(*final(queue)) == queue_closed(*old(queue)),
{
    broadcast use {group_btree_axioms, group_laws_cmp};

    let limit: usize = match queue_capacity(queue) {
        Some(limit) => limit,
        None => 0,
    };
    let mut processed: usize = 0;
    while processed < limit
        invariant_except_break
            queued_ops(*queue).len() <= limit - processed,
        invariant
            processed <= limit,
            apply_ops(timers@, queued_ops(*queue)) == apply_ops(
                old(timers)@,
                queued_ops(*old(queue)),
            ),
            queue_limit(*queue) == queue_limit(*old(queue)),
            queue_closed(*queue) == queue_closed(*old(queue)),
        ensures
            queued_ops(*queue).len() == 0,
        decreases limit - processed,
    {
        match pop_op(queue) {
            Some(TimerOp::Insert(when, id, waker)) => {
                timers.insert((when, id), waker);
            },
            Some(TimerOp::Remove(when, id)) => {
                timers.remove(&(when, id));
            },
            None => {
                break;
            },
        }
        processed += 1;
    }
}

/// Fires the timers whose deadline is not later than `now`: takes them out of `timers` and puts
/// their wakers at the end of `wakers`, in the order in which they fire. Returns how long there
/// is to wait for the next timer: no time at all if any fired, nothing if no timer is left.
pub fn fire_timers(
    timers: &mut BTreeMap<TimerKey, Waker>,
    now: i128,
    wakers: &mut Vec<Waker>,
) -> (wait: Option<u128>)
    ensures
        final(timers)@ == pending(old(timers)@, now),
        exists|keys: Seq<TimerKey>| #[trigger]
            firing_order(old(timers)@, now, keys) && final(wakers)@ == old(wakers)@ + wakers_of(
                old(timers)@,
                keys,
            ),
        wait_until_first(old(timers)@, now, wait),
{
    broadcast use {group_btree_axioms, group_laws_cmp};

    let ghost all = timers@;
    let ghost mut keys = Seq::<TimerKey>::empty();
    let first = first_timer(timers);
    let wait = match first {
        Some(key) => Some(saturating_nanos_until(key.0, now)),
        None => None,
    };
    let mut next = first;
    loop
        invariant_except_break
            match next {
                Some(key) => is_first(timers@, key),
                None => timers@ == Map::<TimerKey, Waker>::empty(),
            },
        invariant
            forall|i: int, j: int| 0 <= i < j < keys.len() ==> fires_before(keys[i], keys[j]),
            forall|key: TimerKey| #[trigger]
                keys.contains(key) ==> all.contains_key(key) && key.0 <= now && !timers@.contains_key(key),
            forall|key: TimerKey| #[trigger]
                all.contains_key(key) ==> keys.contains(key) || timers@.contains_key(key),
            forall|key: TimerKey| #[trigger]
                timers@.contains_key(key) ==> all.contains_key(key) && timers@[key] == all[key],
            forall|i: int, key: TimerKey|
                #![trigger keys[i], timers@.contains_key(key)]
                0 <= i < keys.len() && timers@.contains_key(key) ==> fires_before(keys[i], key),
            wakers@ == old(wakers)@ + wakers_of(all, keys),
            timers@.dom().finite(),
        ensures
            forall|key: TimerKey| #[trigger] timers@.contains_key(key) ==> now < key.0,
        decreases timers@.dom().len(),
    {
        match next {
            Some(key) => {
                if key.0 > now {
                    break;
                }
                let ghost before = timers@;
                if let Some(waker) = timers.remove(&key) {
                    wakers.push(waker);
                }
                proof {
                    let grown = keys.push(key);
                    assert forall|k: TimerKey| #[trigger] grown.contains(k) implies all.contains_key(
                        k,
                    ) && k.0 <= now && !timers@.contains_key(k) by {
                        let i = grown.index_of(k);
                        if i < keys.len() {
                            assert(keys[i] == k);
                            assert(keys.contains(k));
                        }
                    }
                    assert forall|k: TimerKey| #[trigger] all.contains_key(k) implies grown.contains(
                        k,
                    ) || timers@.contains_key(k) by {
                        if keys.contains(k) {
                            assert(grown[keys.index_of(k)] == k);
                        } else if k == key {
                            assert(grown[grown.len() - 1] == k);
                        }
                    }
                    assert(wakers_of(all, grown) =~= wakers_of(all, keys).push(all[key]));
                    keys = grown;
                }
                next = first_timer(timers);
            },
            None => {
                break;
            },
        }
    }
    proof {
        assert(timers@ =~= pending(all, now));
        assert(firing_order(all, now, keys));
    }
    wait
}

} // verus!
