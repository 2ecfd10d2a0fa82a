//! The reactor: registered sources, timers, and the rounds in which events reach them.
//!
//! A round starts with [`Reactor::begin_react`], which fires timers and says how long to wait for
//! events. The driver waits and reports the outcome to [`Reactor::on_wait`]. If there are events,
//! [`Reactor::dispatch`] delivers them, and hands back control whenever the poller has to be told
//! of an interest that remains. In the end the driver wakes the wakers that the round collected.

use crate::direction::{next_count, WakeMode};
use crate::event::Event;
use crate::laws::timing::{every_timer_limits_the_wait, no_timer_operation_is_lost};
use crate::op_queue::{bounded_queue, push_op, queue_closed, queue_limit, queued_ops};
use crate::registration::{PollerOp, Registration};
use crate::source::{Source, SourceView};
use crate::source_table::{
    get_source, get_source_mut, insert_source, new_table, remove_source, source_slots, vacant_key,
};
use crate::timers::{
    apply_op, apply_ops, fire_timers, firing_order, pending, process_timer_ops, wait_until_first,
    wakers_of, TimerKey, TimerOp,
};
use concurrent_queue::ConcurrentQueue;
use slab::Slab;
use std::collections::BTreeMap;
use std::task::Waker;
use vstd::prelude::*;

verus! {

/// How many timer operations wait at most before they are processed.
pub const TIMER_QUEUE_SIZE: usize = 1000;

/// The reactor.
#[derive(Debug)]
pub struct Reactor {
    /// Number of the present round.
    ticker: usize,
    /// Registered sources.
    sources: Slab<Source>,
    /// Registered timers, in the order in which they fire.
    timers: BTreeMap<TimerKey, Waker>,
    /// Timer operations that were not processed yet. They are processed when the queue fills up
    /// or a round starts.
    timer_ops: ConcurrentQueue<TimerOp>,
    /// The number of the next timer.
    next_timer_id: usize,
}

/// The reactor with its collections as mathematical ones.
#[verifier::ext_equal]
pub struct ReactorView {
    pub ticker: usize,
    pub sources: Map<usize, SourceView>,
    pub timers: Map<TimerKey, Waker>,
    pub timer_ops: Seq<TimerOp>,
    pub next_timer_id: usize,
}

/// The sources as they are seen from outside.
pub open spec fn source_views(sources: Map<usize, Source>) -> Map<usize, SourceView> {
    sources.map_values(|source: Source| source@)
}

impl View for Reactor {
    type V = ReactorView;

    closed spec fn view(&self) -> ReactorView {
        ReactorView {
            ticker: self.ticker,
            sources: source_views(source_slots(self.sources)),
            timers: self.timers@,
            timer_ops: queued_ops(self.timer_ops),
            next_timer_id: self.next_timer_id,
        }
    }
}

impl ReactorView {
    /// Every source is stored under its own key and well formed, and no more operations wait than
    /// there is room for.
    pub open spec fn wf(self) -> bool {
        &&& forall|key: usize| #[trigger]
            self.sources.contains_key(key) ==> self.sources[key].key == key
                && self.sources[key].wf()
        &&& self.timer_ops.len() <= TIMER_QUEUE_SIZE
    }

    /// The reactor with a source that was just registered under `key`.
    pub open spec fn with_source(
        self,
        registration: Registration,
        key: usize,
        wake_mode: WakeMode,
    ) -> ReactorView {
        ReactorView {
            sources: self.sources.insert(key, SourceView::fresh(registration, key, wake_mode)),
            ..self
        }
    }

    /// The timers that are set, those included whose insertion or removal still waits.
    pub open spec fn set_timers(self) -> Map<TimerKey, Waker> {
        apply_ops(self.timers, self.timer_ops)
    }

    /// The reactor after a timer operation was put behind those that wait. If there is no room,
    /// those that wait are processed first.
    pub open spec fn with_op(self, op: TimerOp) -> ReactorView {
        if self.timer_ops.len() < TIMER_QUEUE_SIZE {
            ReactorView { timer_ops: self.timer_ops.push(op), ..self }
        } else {
            ReactorView { timers: self.set_timers(), timer_ops: seq![op], ..self }
        }
    }

    /// The reactor after a timer was inserted: it has the next number.
    pub open spec fn with_timer(self, when: i128, waker: Waker) -> ReactorView {
        let id = self.next_timer_id;
        ReactorView {
            next_timer_id: next_count(id as int, usize::MAX as int) as usize,
            ..self.with_op(TimerOp::Insert(when, id, waker))
        }
    }

    /// The reactor after the timers due by `now` fired.
    pub open spec fn fired(self, now: i128) -> ReactorView {
        ReactorView {
            timers: pending(self.set_timers(), now),
            timer_ops: Seq::empty(),
            ..self
        }
    }

    /// `woken` are the wakers of the timers that are due by `now`, in the order in which they
    /// fire.
    pub open spec fn fires(self, now: i128, woken: Seq<Waker>) -> bool {
        exists|keys: Seq<TimerKey>| #[trigger]
            firing_order(self.set_timers(), now, keys) && woken == wakers_of(
                self.set_timers(),
                keys,
            )
    }

    /// `after`, `woken` and `next` are what the outcome of a wait with that limit makes of the
    /// reactor: timers are fired if the wait was for some time and ended without events.
    pub open spec fn waited(
        self,
        timeout: Option<u128>,
        outcome: WaitOutcome,
        now: i128,
        after: ReactorView,
        woken: Seq<Waker>,
        next: AfterWait,
    ) -> bool {
        &&& if outcome == WaitOutcome::NoEvents && timeout != Some(0u128) {
            after == self.fired(now) && self.fires(now, woken)
        } else {
            after == self && woken.len() == 0
        }
        &&& next == match outcome {
            WaitOutcome::NoEvents => AfterWait::Finish,
            WaitOutcome::Events => AfterWait::Dispatch,
            WaitOutcome::Interrupted => AfterWait::Finish,
            WaitOutcome::Failed => AfterWait::Fail,
        }
    }
}

/// The number of the round after `ticker`.
pub open spec fn next_tick(ticker: usize) -> usize {
    next_count(ticker as int, usize::MAX as int) as usize
}

/// The shorter of two waits, where none is no limit.
pub open spec fn shorter_wait(a: Option<u128>, b: Option<u128>) -> Option<u128> {
    match (a, b) {
        (None, None) => None,
        (Some(t), None) => Some(t),
        (None, Some(t)) => Some(t),
        (Some(s), Some(t)) => Some(
            if s < t {
                s
            } else {
                t
            },
        ),
    }
}

/// The sources after `event` was delivered in round `tick`, to the one with its key if there is
/// such a source.
pub open spec fn after_event(sources: Map<usize, SourceView>, event: Event, tick: usize) -> Map<
    usize,
    SourceView,
> {
    if sources.contains_key(event.key) {
        sources.insert(event.key, sources[event.key].delivered(event, tick))
    } else {
        sources
    }
}

/// The sources after `events` were delivered in round `tick`, one after the other.
pub open spec fn after_events(
    sources: Map<usize, SourceView>,
    events: Seq<Event>,
    tick: usize,
) -> Map<usize, SourceView>
    decreases events.len(),
{
    if events.len() == 0 {
        sources
    } else {
        after_event(after_events(sources, events.drop_last(), tick), events.last(), tick)
    }
}

/// The wakers that the delivery of `event` takes off the sources.
pub open spec fn woken_by_event(sources: Map<usize, SourceView>, event: Event) -> Seq<Waker> {
    if sources.contains_key(event.key) {
        sources[event.key].woken(event)
    } else {
        Seq::empty()
    }
}

/// The wakers that the delivery of `events` in round `tick` takes off the sources.
pub open spec fn woken_by_events(
    sources: Map<usize, SourceView>,
    events: Seq<Event>,
    tick: usize,
) -> Seq<Waker>
    decreases events.len(),
{
    if events.len() == 0 {
        Seq::empty()
    } else {
        woken_by_events(sources, events.drop_last(), tick) + woken_by_event(
            after_events(sources, events.drop_last(), tick),
            events.last(),
        )
    }
}

/// The command that follows the delivery of `event` in round `tick`, if its source is still
/// waited on.
pub open spec fn rearm_after(sources: Map<usize, SourceView>, event: Event, tick: usize) -> Option<
    PollerOp,
> {
    if sources.contains_key(event.key) {
        sources[event.key].delivered(event, tick).rearm()
    } else {
        None
    }
}

/// None of the deliveries of `events` in round `tick` is followed by a command.
pub open spec fn no_rearm(
    sources: Map<usize, SourceView>,
    events: Seq<Event>,
    tick: usize,
) -> bool
    decreases events.len(),
{
    events.len() > 0 ==> {
        &&& no_rearm(sources, events.drop_last(), tick)
        &&& rearm_after(
            after_events(sources, events.drop_last(), tick),
            events.last(),
            tick,
        ) is None
    }
}

/// A round in progress.
#[derive(Debug)]
pub struct ReactPass {
    /// The number of the round.
    pub tick: usize,
    /// How many nanoseconds to wait for events at most; none is no limit.
    pub timeout: Option<u128>,
    /// The wakers to wake at the end of the round.
    pub wakers: Vec<Waker>,
}

/// How the wait for events ended.
#[derive(Debug, Copy, Clone, PartialEq, Eq, Structural)]
pub enum WaitOutcome {
    /// No I/O events occurred.
    NoEvents,
    /// At least one I/O event occurred.
    Events,
    /// The wait was interrupted.
    Interrupted,
    /// An actual error occurred.
    Failed,
}

/// How a round goes on after the wait.
#[derive(Debug, Copy, Clone, PartialEq, Eq, Structural)]
pub enum AfterWait {
    /// Dispatch the events, then wake the collected wakers.
    Dispatch,
    /// Wake the collected wakers; the round succeeded.
    Finish,
    /// Wake the collected wakers; the round failed with the error of the wait.
    Fail,
}

impl Reactor {
    /// The well-formedness of the reactor's own parts.
    pub closed spec fn wf(&self) -> bool {
        &&& self@.wf()
        &&& queue_limit(self.timer_ops) == Some(TIMER_QUEUE_SIZE)
        &&& !queue_closed(self.timer_ops)
    }

    /// A well-formed reactor has a well-formed view.
    pub proof fn lemma_wf(&self)
        requires
            self.wf(),
        ensures
            self@.wf(),
    {
    }

    /// Creates a reactor without sources and timers.
    pub fn new() -> (reactor: Reactor)
        ensures
            reactor.wf(),
            reactor@ == (ReactorView {
                ticker: 0,
                sources: Map::empty(),
                timers: Map::empty(),
                timer_ops: Seq::empty(),
                next_timer_id: 1,
            }),
    {
        Reactor {
            ticker: 0,
            sources: new_table(),
            timers: BTreeMap::new(),
            timer_ops: bounded_queue(TIMER_QUEUE_SIZE),
            next_timer_id: 1,
        }
    }

    /// Returns the current ticker.
    pub fn ticker(&self) -> (ticker: usize)
        ensures
            ticker == self@.ticker,
    {
        self.ticker
    }

    fn insert_source(&mut self, raw: Registration, wake_mode: WakeMode) -> (inserted: (
        usize,
        PollerOp,
    ))
        requires
            old(self).wf(),
        ensures
            final(self).wf(),
            !old(self)@.sources.contains_key(inserted.0),
            final(self)@ == old(self)@.with_source(raw, inserted.0, wake_mode),
            inserted.1 == raw.add_op(inserted.0),
    {
        let key: usize = vacant_key(&self.sources);
        let source = Source::new(raw, key, wake_mode);
        insert_source(&mut self.sources, source);
        proof {
            assert(self@.sources =~= old(self)@.sources.insert(
                key,
                SourceView::fresh(raw, key, wake_mode),
            ));
        }
        (key, raw.add(key))
    }

    /// Registers an I/O source in level mode. Returns its key and the command that registers it
    /// with the poller; if that fails, [`Reactor::insert_failed`] takes the source back.
    pub fn insert_io(&mut self, raw: Registration) -> (inserted: (usize, PollerOp))
        requires
            old(self).wf(),
        ensures
            final(self).wf(),
            !old(self)@.sources.contains_key(inserted.0),
            final(self)@ == old(self)@.with_source(raw, inserted.0, WakeMode::Level),
            inserted.1 == raw.add_op(inserted.0),
    {
        self.insert_source(raw, WakeMode::Level)
    }

    /// Registers an I/O source in edge mode, as [`Reactor::insert_io`] does in level mode.
    pub fn insert_io_edge(&mut self, raw: Registration) -> (inserted: (usize, PollerOp))
        requires
            old(self).wf(),
        ensures
            final(self).wf(),
            !old(self)@.sources.contains_key(inserted.0),
            final(self)@ == old(self)@.with_source(raw, inserted.0, WakeMode::Edge),
            inserted.1 == raw.add_op(inserted.0),
    {
        self.insert_source(raw, WakeMode::Edge)
    }

    /// Takes a source off the table whose registration with the poller failed.
    pub fn insert_failed(&mut self, key: usize)
        requires
            old(self).wf(),
            old(self)@.sources.contains_key(key),
        ensures
            final(self).wf(),
            final(self)@ == (ReactorView { sources: old(self)@.sources.remove(key), ..old(self)@ }),
    {
        remove_source(&mut self.sources, key);
        assert(self@.sources =~= old(self)@.sources.remove(key));
    }

    /// Deregisters an I/O source: takes it off the table and returns the command that takes it
    /// off the poller.
    pub fn remove_io(&mut self, key: usize) -> (op: PollerOp)
        requires
            old(self).wf(),
            old(self)@.sources.contains_key(key),
        ensures
            final(self).wf(),
            final(self)@ == (ReactorView { sources: old(self)@.sources.remove(key), ..old(self)@ }),
            op == old(self)@.sources[key].registration.delete_op(),
    {
        let source = remove_source(&mut self.sources, key);
        assert(self@.sources =~= old(self)@.sources.remove(key));
        source.registration().delete()
    }

    /// Returns the source with this key, if there is one.
    pub fn source(&self, key: usize) -> (source: Option<&Source>)
        ensures
            match source {
                Some(s) => self@.sources.contains_key(key) && s@ == self@.sources[key],
                None => !self@.sources.contains_key(key),
            },
    {
        get_source(&self.sources, key)
    }

    /// Gives access to the source with this key, if there is one. What is made of it is what the
    /// reactor holds afterwards.
    pub fn source_mut(&mut self, key: usize) -> (source: Option<&mut Source>)
        requires
            old(self).wf(),
        ensures
            match source {
                Some(s) => {
                    &&& old(self)@.sources.contains_key(key)
                    &&& s@ == old(self)@.sources[key]
                    &&& final(self)@ == (ReactorView {
                        sources: old(self)@.sources.insert(key, final(s)@),
                        ..old(self)@
                    })
                    &&& final(s)@.wf() && final(s)@.key == key ==> final(self).wf()
                },
                None => {
                    &&& !old(self)@.sources.contains_key(key)
                    &&& final(self)@ == old(self)@
                    &&& final(self).wf()
                },
            },
    {
        proof {
            let slots = source_slots(self.sources);
            assert forall|source: Source| source_views(#[trigger] slots.insert(key, source))
                == self@.sources.insert(key, source@) by {
                assert(source_views(slots.insert(key, source)) =~= self@.sources.insert(
                    key,
                    source@,
                ));
            }
        }
        get_source_mut(&mut self.sources, key)
    }

    /// Puts a timer operation behind those that wait. If there is no room, those that wait are
    /// processed first.
    fn push_timer_op(&mut self, op: TimerOp)
        requires
            old(self).wf(),
        ensures
            final(self).wf(),
            final(self)@ == old(self)@.with_op(op),
            final(self)@.set_timers() == apply_op(old(self)@.set_timers(), op),
    {
        let mut next = op;
        loop
            invariant_except_break
                next == op,
                self.wf(),
                ({
                    ||| self@ == old(self)@
                    ||| {
                        &&& old(self)@.timer_ops.len() == TIMER_QUEUE_SIZE
                        &&& self@ == ReactorView {
                            timers: old(self)@.set_timers(),
                            timer_ops: Seq::empty(),
                            ..old(self)@
                        }
                    }
                }),
            ensures
                self.wf(),
                self@ == old(self)@.with_op(op),
            decreases self@.timer_ops.len(),
        {
            match push_op(&mut self.timer_ops, next) {
                Ok(()) => {
                    break;
                },
                Err(back) => {
                    next = back;
                    process_timer_ops(&mut self.timer_ops, &mut self.timers);
                },
            }
        }
        proof {
            no_timer_operation_is_lost(old(self)@, op);
        }
    }

    /// Registers a timer that fires at `when` and returns its number. Whoever waits for events is
    /// to be notified, since there may be less time to wait now.
    pub fn insert_timer(&mut self, when: i128, waker: Waker) -> (id: usize)
        requires
            old(self).wf(),
        ensures
            final(self).wf(),
            id == old(self)@.next_timer_id,
            final(self)@ == old(self)@.with_timer(when, waker),
            final(self)@.set_timers() == old(self)@.set_timers().insert((when, id), waker),
    {
        let id: usize = self.next_timer_id;
        self.next_timer_id = id.wrapping_add(1);
        self.push_timer_op(TimerOp::Insert(when, id, waker));
        id
    }

    /// Deregisters a timer.
    pub fn remove_timer(&mut self, when: i128, id: usize)
        requires
            old(self).wf(),
        ensures
            final(self).wf(),
            final(self)@ == old(self)@.with_op(TimerOp::Remove(when, id)),
            final(self)@.set_timers() == old(self)@.set_timers().remove((when, id)),
    {
        self.push_timer_op(TimerOp::Remove(when, id));
    }

    /// Fires the timers that are due: puts their wakers at the end of `wakers`. Returns how long
    /// there is to wait for the first timer of those that were set before.
    pub fn process_timers(&mut self, now: i128, wakers: &mut Vec<Waker>) -> (wait: Option<u128>)
        requires
            old(self).wf(),
        ensures
            final(self).wf(),
            final(self)@ == old(self)@.fired(now),
            exists|woken: Seq<Waker>| #[trigger]
                old(self)@.fires(now, woken) && final(wakers)@ == old(wakers)@ + woken,
            wait_until_first(old(self)@.set_timers(), now, wait),
            forall|key: TimerKey| #[trigger]
                old(self)@.set_timers().contains_key(key) ==> (wait matches Some(nanos) && if key.0
                    <= now {
                    nanos == 0
                } else {
                    now + nanos <= key.0
                }),
    {
        process_timer_ops(&mut self.timer_ops, &mut self.timers);
        let wait = fire_timers(&mut self.timers, now, wakers);
        proof {
            let set = old(self)@.set_timers();
            let keys = choose|keys: Seq<TimerKey>| #[trigger]
                firing_order(set, now, keys) && wakers@ == old(wakers)@ + wakers_of(set, keys);
            assert(old(self)@.fires(now, wakers_of(set, keys)));
            every_timer_limits_the_wait(set, now, wait);
        }
        wait
    }

    /// Starts a round: fires the timers that are due, limits the wait for events to `timeout` and
    /// to the first timer, and counts the round.
    pub fn begin_react(&mut self, now: i128, timeout: Option<u128>) -> (pass: ReactPass)
        requires
            old(self).wf(),
        ensures
            final(self).wf(),
            final(self)@ == (ReactorView {
                ticker: next_tick(old(self)@.ticker),
                ..old(self)@.fired(now)
            }),
            pass.tick == final(self)@.ticker,
            pass.tick == if old(self)@.ticker == usize::MAX {
                0
            } else {
                old(self)@.ticker + 1
            },
            old(self)@.fires(now, pass.wakers@),
            exists|next_timer: Option<u128>| #[trigger]
                wait_until_first(old(self)@.set_timers(), now, next_timer) && pass.timeout
                    == shorter_wait(next_timer, timeout),
            forall|key: TimerKey| #[trigger]
                old(self)@.set_timers().contains_key(key) ==> (pass.timeout matches Some(nanos)
                    && if key.0 <= now {
                    nanos == 0
                } else {
                    now + nanos <= key.0
                }),
            timeout matches Some(limit) ==> (pass.timeout matches Some(nanos) && nanos <= limit),
    {
        let mut wakers = Vec::new();
        let next_timer = self.process_timers(now, &mut wakers);
        proof {
            let woken = choose|woken: Seq<Waker>| #[trigger]
                old(self)@.fires(now, woken) && wakers@ == Seq::<Waker>::empty() + woken;
            assert(wakers@ =~= woken);
        }
        let timeout = match (next_timer, timeout) {
            (None, None) => None,
            (Some(t), None) => Some(t),
            (None, Some(t)) => Some(t),
            (Some(a), Some(b)) => Some(
                if a < b {
                    a
                } else {
                    b
                },
            ),
        };
        self.ticker = self.ticker.wrapping_add(1);
        ReactPass { tick: self.ticker, timeout, wakers }
    }

    /// Goes on with a round after the wait for events. If the wait was for some time and ended
    /// without events, timers may have come due meanwhile: they are fired.
    pub fn on_wait(&mut self, pass: &mut ReactPass, outcome: WaitOutcome, now: i128) -> (next:
        AfterWait)
        requires
            old(self).wf(),
        ensures
            final(self).wf(),
            final(pass).tick == old(pass).tick,
            final(pass).timeout == old(pass).timeout,
            exists|woken: Seq<Waker>| #[trigger]
                old(self)@.waited(old(pass).timeout, outcome, now, final(self)@, woken, next)
                    && final(pass).wakers@ == old(pass).wakers@ + woken,
    {
        match outcome {
            WaitOutcome::NoEvents => {
                let waited = match pass.timeout {
                    Some(nanos) => nanos != 0,
                    None => true,
                };
                if waited {
                    self.process_timers(now, &mut pass.wakers);
                    proof {
                        let woken = choose|woken: Seq<Waker>| #[trigger]
                            old(self)@.fires(now, woken) && pass.wakers@ == old(pass).wakers@
                                + woken;
                        assert(old(self)@.waited(
                            old(pass).timeout,
                            outcome,
                            now,
                            self@,
                            woken,
                            AfterWait::Finish,
                        ));
                    }
                    return AfterWait::Finish;
                }
            },
            _ => {},
        }
        let next = match outcome {
            WaitOutcome::NoEvents => AfterWait::Finish,
            WaitOutcome::Events => AfterWait::Dispatch,
            WaitOutcome::Interrupted => AfterWait::Finish,
            WaitOutcome::Failed => AfterWait::Fail,
        };
        proof {
            let nobody = Seq::<Waker>::empty();
            assert(old(self)@.waited(old(pass).timeout, outcome, now, self@, nobody, next));
            assert(pass.wakers@ =~= old(pass).wakers@ + nobody);
        }
        next
    }

    /// Delivers one event to the source with its key, if there is such a source.
    fn deliver(&mut self, event: Event, tick: usize, wakers: &mut Vec<Waker>) -> (update: Option<
        PollerOp,
    >)
        requires
            old(self).wf(),
        ensures
            final(self).wf(),
            final(self)@ == (ReactorView {
                sources: after_event(old(self)@.sources, event, tick),
                ..old(self)@
            }),
            final(wakers)@ == old(wakers)@ + woken_by_event(old(self)@.sources, event),
            update == rearm_after(old(self)@.sources, event, tick),
            old(self)@.sources.contains_key(event.key) ==> {
                let after = final(self)@.sources[event.key];
                update is None <==> after.read.is_empty() && after.write.is_empty()
            },
    {
        match self.source_mut(event.key) {
            Some(source) => source.deliver(event, tick, wakers),
            None => None,
        }
    }

    /// Delivers `events`, from the index `from` on, to the sources with their keys; an event whose
    /// key no source has is passed over. The wakers of those who waited join the round's wakers.
    ///
    /// It stops after an event whose source is still waited on, with the command that restates the
    /// interest, and with the index to go on from once the command was carried out. If the command
    /// fails, the round fails, and neither the events left nor the collected wakers are served.
    pub fn dispatch(&mut self, pass: &mut ReactPass, events: &Vec<Event>, from: usize) -> (next: (
        usize,
        Option<PollerOp>,
    ))
        requires
            old(self).wf(),
            from <= events.len(),
        ensures
            final(self).wf(),
            from <= next.0 <= events.len(),
            final(self)@ == (ReactorView {
                sources: after_events(
                    old(self)@.sources,
                    events@.subrange(from as int, next.0 as int),
                    old(pass).tick,
                ),
                ..old(self)@
            }),
            final(pass).tick == old(pass).tick,
            final(pass).timeout == old(pass).timeout,
            final(pass).wakers@ == old(pass).wakers@ + woken_by_events(
                old(self)@.sources,
                events@.subrange(from as int, next.0 as int),
                old(pass).tick,
            ),
            match next.1 {
                Some(op) => {
                    let quiet = events@.subrange(from as int, next.0 - 1);
                    &&& from < next.0
                    &&& no_rearm(old(self)@.sources, quiet, old(pass).tick)
                    &&& rearm_after(
                        after_events(old(self)@.sources, quiet, old(pass).tick),
                        events@[next.0 - 1],
                        old(pass).tick,
                    ) == Some(op)
                },
                None => next.0 == events.len() && no_rearm(
                    old(self)@.sources,
                    events@.subrange(from as int, next.0 as int),
                    old(pass).tick,
                ),
            },
            next.1 matches Some(op) ==> {
                let key = events@[next.0 - 1].key;
                let after = final(self)@.sources[key];
                let interest = Event {
                    key,
                    readable: !after.read.is_empty(),
                    writable: !after.write.is_empty(),
                };
                &&& final(self)@.sources.contains_key(key)
                &&& interest.readable || interest.writable
                &&& op == match after.registration {
                    Registration::Socket(socket) => PollerOp::Modify { socket, interest },
                    Registration::Handle(handle) => PollerOp::ModifyWaitable { handle, interest },
                    Registration::File(_) => PollerOp::Nothing,
                }
            },
            forall|i: int|
                from <= i < next.0 && !(next.1 is Some && i == next.0 - 1)
                    && old(self)@.sources.contains_key((#[trigger] events@[i]).key) ==> {
                    &&& final(self)@.sources[events@[i].key].read.is_empty()
                    &&& final(self)@.sources[events@[i].key].write.is_empty()
                },
    {
        let ghost sources = self@.sources;
        let tick: usize = pass.tick;
        let mut i: usize = from;
        assert(events@.subrange(from as int, from as int) =~= Seq::empty());
        while i < events.len()
            invariant
                self.wf(),
                tick == old(pass).tick,
                pass.tick == old(pass).tick,
                pass.timeout == old(pass).timeout,
                from <= i <= events.len(),
                self@ == (ReactorView {
                    sources: after_events(sources, events@.subrange(from as int, i as int), tick),
                    ..old(self)@
                }),
                sources == old(self)@.sources,
                pass.wakers@ == old(pass).wakers@ + woken_by_events(
                    sources,
                    events@.subrange(from as int, i as int),
                    tick,
                ),
                no_rearm(sources, events@.subrange(from as int, i as int), tick),
                self@.sources.dom() == sources.dom(),
                forall|j: int|
                    from <= j < i && sources.contains_key((#[trigger] events@[j]).key) ==> {
                        &&& self@.sources[events@[j].key].read.is_empty()
                        &&& self@.sources[events@[j].key].write.is_empty()
                    },
            decreases events.len() - i,
        {
            let event = events[i];
            let ghost seen = events@.subrange(from as int, i + 1);
            proof {
                assert(seen.drop_last() =~= events@.subrange(from as int, i as int));
                assert(seen.last() == event);
            }
            let update = self.deliver(event, tick, &mut pass.wakers);
            i += 1;
            if update.is_some() {
                return (i, update);
            }
        }
        (i, None)
    }
}

} // verus!
