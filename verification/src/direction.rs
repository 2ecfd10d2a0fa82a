//! One direction (reading or writing) of a source: what was delivered for it, and who waits.

use crate::slots::{
    ascending, get_slot, get_slot_mut, new_slots, slot_keys, waker_slots,
};
use slab::Slab;
use std::task::Waker;
use vstd::prelude::*;

verus! {

/// How a source reports readiness.
#[derive(Debug, Copy, Clone, PartialEq, Eq, Structural)]
pub enum WakeMode {
    /// Events are reported as long as the source is ready. A poll is ready once an event was
    /// delivered in a round of the reactor other than the one that ran when the poll parked.
    Level,
    /// Each event is delivered exactly once, as the completion packets of overlapped files are.
    /// A poll is ready once the count of delivered events has moved from the captured one.
    Edge,
}

/// A read or write direction.
#[derive(Debug)]
pub struct Direction {
    /// Last reactor tick that delivered an event.
    pub tick: usize,
    /// Count of the events delivered for this direction, modulo 2^64.
    pub events: u64,
    /// In level mode: the reactor's ticker and `tick`, as they were when the poll parked.
    pub ticks: Option<(usize, usize)>,
    /// In edge mode: `events`, as it was when the poll parked.
    pub captured_events: Option<u64>,
    /// Waker of the task that polls this direction.
    pub waker: Option<Waker>,
    /// Wakers of the tasks that await the next event of this direction.
    pub wakers: Slab<Option<Waker>>,
}

/// A direction with its slots as a map.
#[verifier::ext_equal]
pub struct DirectionView {
    pub tick: usize,
    pub events: u64,
    pub ticks: Option<(usize, usize)>,
    pub captured_events: Option<u64>,
    pub waker: Option<Waker>,
    pub slots: Map<usize, Option<Waker>>,
}

impl View for Direction {
    type V = DirectionView;

    open spec fn view(&self) -> DirectionView {
        DirectionView {
            tick: self.tick,
            events: self.events,
            ticks: self.ticks,
            captured_events: self.captured_events,
            waker: self.waker,
            slots: waker_slots(self.wakers),
        }
    }
}

/// The wakers in the slots with keys below `n`, by ascending key.
pub open spec fn parked_below(slots: Map<usize, Option<Waker>>, n: nat) -> Seq<Waker>
    decreases n,
{
    if n == 0 {
        Seq::empty()
    } else {
        let rest = parked_below(slots, (n - 1) as nat);
        let key = (n - 1) as usize;
        if n - 1 <= usize::MAX && slots.contains_key(key) && slots[key] is Some {
            rest.push(slots[key]->0)
        } else {
            rest
        }
    }
}

/// The slots after every waker was taken out of them: the same keys, all without a waker.
pub open spec fn emptied(slots: Map<usize, Option<Waker>>) -> Map<usize, Option<Waker>> {
    Map::new(|key: usize| slots.contains_key(key), |key: usize| None::<Waker>)
}

/// `n + 1` in a counter that starts again at 0 after `max`.
pub open spec fn next_count(n: int, max: int) -> int {
    if n == max {
        0
    } else {
        n + 1
    }
}

impl DirectionView {
    /// A direction that nothing was delivered for and nobody waits on.
    pub open spec fn initial() -> DirectionView {
        DirectionView {
            tick: 0,
            events: 0,
            ticks: None,
            captured_events: None,
            waker: None,
            slots: Map::empty(),
        }
    }

    /// Nobody waits on this direction.
    pub open spec fn is_empty(self) -> bool {
        &&& self.waker is None
        &&& forall|key: usize| #[trigger] self.slots.contains_key(key) ==> self.slots[key] is None
    }

    /// The wakers of those who wait, the polling task's first, the others by ascending key.
    pub open spec fn parked(self) -> Seq<Waker> {
        let polling = match self.waker {
            Some(waker) => seq![waker],
            None => Seq::empty(),
        };
        polling + parked_below(self.slots, usize::MAX as nat + 1)
    }

    /// The direction after all that wait were taken off it.
    pub open spec fn drained(self) -> DirectionView {
        DirectionView { waker: None, slots: emptied(self.slots), ..self }
    }

    /// The direction after the reactor delivered an event for it in round `tick`.
    pub open spec fn delivered(self, tick: usize) -> DirectionView {
        DirectionView {
            tick,
            events: next_count(self.events as int, u64::MAX as int) as u64,
            ..self.drained()
        }
    }

    /// An event was delivered since the snapshot of the polling task was taken.
    pub open spec fn ready(self, mode: WakeMode) -> bool {
        match mode {
            WakeMode::Level => match self.ticks {
                Some((round, last)) => self.tick != round && self.tick != last,
                None => false,
            },
            WakeMode::Edge => match self.captured_events {
                Some(captured) => self.events != captured,
                None => false,
            },
        }
    }

    /// The direction with the snapshot that `mode` compares taken now, in round `ticker`.
    pub open spec fn captured(self, mode: WakeMode, ticker: usize) -> DirectionView {
        match mode {
            WakeMode::Level => DirectionView {
                ticks: Some((ticker, self.tick)),
                captured_events: None,
                ..self
            },
            WakeMode::Edge => DirectionView {
                captured_events: Some(self.events),
                ticks: None,
                ..self
            },
        }
    }

    /// The direction without a snapshot.
    pub open spec fn released(self) -> DirectionView {
        DirectionView { ticks: None, captured_events: None, ..self }
    }

    /// While the polling task's waker is in place, nothing was delivered since its snapshot.
    pub open spec fn wf(self, mode: WakeMode) -> bool {
        self.waker is Some ==> match mode {
            WakeMode::Level => self.ticks matches Some((_, last)) && last == self.tick,
            WakeMode::Edge => self.captured_events == Some(self.events),
        }
    }
}

/// Without a waker in any of the keys from `low` up to `high`, the list is the same up to both.
proof fn lemma_parked_below_gap(slots: Map<usize, Option<Waker>>, low: nat, high: nat)
    requires
        low <= high,
        forall|key: usize| low <= key < high && #[trigger] slots.contains_key(key) ==> slots[key] is None,
    ensures
        parked_below(slots, low) == parked_below(slots, high),
    decreases high,
{
    if low < high {
        lemma_parked_below_gap(slots, low, (high - 1) as nat);
    }
}

impl Direction {
    /// Returns `true` if there are no wakers interested in this direction.
    pub fn is_empty(&self) -> (empty: bool)
        ensures
            empty == self@.is_empty(),
    {
        if self.waker.is_some() {
            return false;
        }
        let keys = slot_keys(&self.wakers);
        let mut i: usize = 0;
        while i < keys.len()
            invariant
                i <= keys.len(),
                forall|key: usize| #[trigger]
                    keys@.contains(key) <==> self@.slots.contains_key(key),
                forall|j: int| 0 <= j < i ==> self@.slots[#[trigger] keys@[j]] is None,
            decreases keys.len() - i,
        {
            assert(keys@.contains(keys@[i as int]));
            if let Some(Some(_)) = get_slot(&self.wakers, keys[i]) {
                return false;
            }
            i += 1;
        }
        assert forall|key: usize| #[trigger] self@.slots.contains_key(key) implies self@.slots[key]
            is None by {
            assert(keys@.contains(key));
        }
        true
    }

    /// Moves all wakers to the end of `dst`.
    pub fn drain_into(&mut self, dst: &mut Vec<Waker>)
        ensures
            final(self)@ == old(self)@.drained(),
            final(dst)@ == old(dst)@ + old(self)@.parked(),
    {
        let ghost slots = self@.slots;
        if let Some(waker) = self.waker.take() {
            dst.push(waker);
        }
        let ghost before = dst@;
        let keys = slot_keys(&self.wakers);
        let mut i: usize = 0;
        let ghost mut seen: nat = 0;
        while i < keys.len()
            invariant
                i <= keys.len(),
                ascending(keys@),
                forall|key: usize| #[trigger] keys@.contains(key) <==> slots.contains_key(key),
                seen <= usize::MAX + 1,
                forall|j: int| 0 <= j < i ==> #[trigger] keys@[j] < seen,
                forall|j: int| i <= j < keys.len() ==> seen <= #[trigger] keys@[j],
                self.tick == old(self).tick,
                self.events == old(self).events,
                self.ticks == old(self).ticks,
                self.captured_events == old(self).captured_events,
                self.waker is None,
                self@.slots.dom() == slots.dom(),
                forall|key: usize| #[trigger]
                    slots.contains_key(key) ==> self@.slots[key] == if key < seen {
                        None
                    } else {
                        slots[key]
                    },
                dst@ == before + parked_below(slots, seen),
            decreases keys.len() - i,
        {
            let key: usize = keys[i];
            assert(keys@.contains(key));
            proof {
                assert forall|k: usize| seen <= k < key && #[trigger] slots.contains_key(k) implies slots[k]
                    is None by {
                    assert(keys@.contains(k));
                }
                lemma_parked_below_gap(slots, seen, key as nat);
            }
            if let Some(slot) = get_slot_mut(&mut self.wakers, key) {
                if let Some(waker) = slot.take() {
                    dst.push(waker);
                }
            }
            proof {
                seen = key as nat + 1;
            }
            i += 1;
        }
        proof {
            assert forall|k: usize| seen <= k < usize::MAX as nat + 1 && #[trigger] slots.contains_key(
                k,
            ) implies slots[k] is None by {
                assert(keys@.contains(k));
            }
            lemma_parked_below_gap(slots, seen, usize::MAX as nat + 1);
            assert forall|key: usize| #[trigger] slots.contains_key(key) implies self@.slots[key]
                is None by {
                assert(keys@.contains(key));
            }
            assert(self@.slots =~= emptied(slots));
        }
    }
}

impl Default for Direction {
    /// A direction that nothing was delivered for and nobody waits on.
    fn default() -> (direction: Direction)
        ensures
            direction@ == DirectionView::initial(),
    {
        Direction {
            tick: 0,
            events: 0,
            ticks: None,
            captured_events: None,
            waker: None,
            wakers: new_slots(),
        }
    }
}

} // verus!
