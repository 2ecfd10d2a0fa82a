//! A registered source of I/O events, and the polls and futures that wait on it.

use crate::direction::{Direction, DirectionView, WakeMode};
use crate::event::Event;
use crate::registration::{PollerOp, Registration};
use crate::slots::{contains_slot, get_slot_mut, insert_slot, remove_slot};
use std::task::Waker;
use vstd::prelude::*;

verus! {

/// Both wakers wake the same task.
pub uninterp spec fn wakes_same_task(waker: Waker, other: Waker) -> bool;

/// [`Waker::will_wake`]: whether both wakers are known to wake the same task. If it says so, they
/// do. It answers on a best-effort basis: that it does not say so means nothing, and when it does
/// is not stated.
pub assume_specification[ Waker::will_wake ](waker: &Waker, other: &Waker) -> (same: bool)
    ensures
        same ==> wakes_same_task(*waker, *other),
;

/// Which direction of a source is meant.
#[derive(Debug, Copy, Clone, PartialEq, Eq, Structural)]
pub enum Side {
    /// Reading.
    Read,
    /// Writing.
    Write,
}

impl Event {
    /// The event is one of `side`.
    pub open spec fn touches(self, side: Side) -> bool {
        match side {
            Side::Read => self.readable,
            Side::Write => self.writable,
        }
    }
}

/// A registered source of I/O events.
#[derive(Debug)]
pub struct Source {
    registration: Registration,
    key: usize,
    read: Direction,
    write: Direction,
    wake_mode: WakeMode,
}

/// A source with its directions as they are seen from outside.
#[verifier::ext_equal]
pub struct SourceView {
    pub registration: Registration,
    pub key: usize,
    pub read: DirectionView,
    pub write: DirectionView,
    pub wake_mode: WakeMode,
}

impl View for Source {
    type V = SourceView;

    closed spec fn view(&self) -> SourceView {
        SourceView {
            registration: self.registration,
            key: self.key,
            read: self.read@,
            write: self.write@,
            wake_mode: self.wake_mode,
        }
    }
}

/// What is left to do after a task was parked on a source.
#[derive(Debug)]
pub struct Parked {
    /// A waker that was replaced. It is to be woken, since its task will not be.
    pub replaced: Option<Waker>,
    /// The command that states the new interest to the poller, if it changed.
    pub update: Option<PollerOp>,
}

/// The outcome of a poll for readiness.
#[derive(Debug)]
pub enum PollReady {
    /// An event was delivered.
    Ready,
    /// No event was delivered; the task is parked.
    Pending(Parked),
}

impl SourceView {
    /// The source as it is right after registration.
    pub open spec fn fresh(registration: Registration, key: usize, wake_mode: WakeMode) -> SourceView {
        SourceView {
            registration,
            key,
            read: DirectionView::initial(),
            write: DirectionView::initial(),
            wake_mode,
        }
    }

    /// The direction on `side`.
    pub open spec fn side(self, side: Side) -> DirectionView {
        match side {
            Side::Read => self.read,
            Side::Write => self.write,
        }
    }

    /// The source with `direction` on `side`.
    pub open spec fn with(self, side: Side, direction: DirectionView) -> SourceView {
        match side {
            Side::Read => SourceView { read: direction, ..self },
            Side::Write => SourceView { write: direction, ..self },
        }
    }

    /// The source with `waker` in the slot `key` of `side`.
    pub open spec fn with_slot(self, side: Side, key: usize, waker: Waker) -> SourceView {
        let direction = self.side(side);
        self.with(
            side,
            DirectionView { slots: direction.slots.insert(key, Some(waker)), ..direction },
        )
    }

    /// The source without the slot `key` of `side`.
    pub open spec fn without_slot(self, side: Side, key: usize) -> SourceView {
        let direction = self.side(side);
        self.with(side, DirectionView { slots: direction.slots.remove(key), ..direction })
    }

    /// Each polling task's waker goes with a snapshot that nothing was delivered since.
    pub open spec fn wf(self) -> bool {
        self.read.wf(self.wake_mode) && self.write.wf(self.wake_mode)
    }

    /// The interest of all that wait on the source.
    pub open spec fn interest(self) -> Event {
        Event {
            key: self.key,
            readable: !self.read.is_empty(),
            writable: !self.write.is_empty(),
        }
    }

    /// The command that states the interest of all that wait on the source.
    pub open spec fn update_op(self) -> PollerOp {
        self.registration.modify_op(self.interest())
    }

    /// An event was delivered for the polling task on `side`.
    pub open spec fn ready(self, side: Side) -> bool {
        self.side(side).ready(self.wake_mode)
    }

    /// The source without the snapshot on `side`.
    pub open spec fn released(self, side: Side) -> SourceView {
        self.with(side, self.side(side).released())
    }

    /// The source with the polling task of `side` parked under `waker`, in round `ticker`.
    pub open spec fn parking(self, side: Side, waker: Waker, ticker: usize) -> SourceView {
        let direction = DirectionView { waker: Some(waker), ..self.side(side) };
        self.with(side, direction.captured(self.wake_mode, ticker))
    }

    /// What parking on `side` leaves to do: `self` is the source before, `after` the source after.
    pub open spec fn parking_leaves(self, side: Side, after: SourceView) -> Parked {
        Parked {
            replaced: self.side(side).waker,
            update: if self.side(side).is_empty() {
                Some(after.update_op())
            } else {
                None
            },
        }
    }

    /// The polling task of `side` is parked: its waker is in place with a current snapshot.
    pub open spec fn armed(self, side: Side) -> bool {
        self.side(side).waker is Some && self.side(side).wf(self.wake_mode)
    }

    /// `after` and `parked` are what registering `waker` on `side` makes of the source: either
    /// the task is parked anew, or a waker that was in place already and wakes the same task is
    /// kept.
    pub open spec fn registers(
        self,
        side: Side,
        waker: Waker,
        ticker: usize,
        after: SourceView,
        parked: Parked,
    ) -> bool {
        ||| {
            &&& after == self.parking(side, waker, ticker)
            &&& parked == self.parking_leaves(side, after)
        }
        ||| {
            &&& self.side(side).waker matches Some(present) && wakes_same_task(present, waker)
            &&& after == self
            &&& parked == (Parked { replaced: None, update: None })
        }
    }

    /// `after` and `parked` are what registering `waker` on `side` makes of the source if
    /// `same_task` says whether a waker in place is known to wake the same task: then it is kept;
    /// otherwise the task is parked anew.
    pub open spec fn registers_known(
        self,
        side: Side,
        waker: Waker,
        ticker: usize,
        same_task: bool,
        after: SourceView,
        parked: Parked,
    ) -> bool {
        if same_task && self.side(side).waker is Some {
            &&& after == self
            &&& parked == (Parked { replaced: None, update: None })
        } else {
            &&& after == self.parking(side, waker, ticker)
            &&& parked == self.parking_leaves(side, after)
        }
    }

    /// `after` and `poll` are what a poll of `side` makes of the source: a delivery is consumed,
    /// and without one `waker` is registered.
    pub open spec fn polled(
        self,
        side: Side,
        waker: Waker,
        ticker: usize,
        after: SourceView,
        poll: PollReady,
    ) -> bool {
        match poll {
            PollReady::Ready => {
                &&& self.ready(side)
                &&& after == self.released(side)
            },
            PollReady::Pending(parked) => {
                &&& !self.ready(side)
                &&& after.armed(side)
                &&& self.registers(side, waker, ticker, after, parked)
            },
        }
    }

    /// `after` and `parked` are what arming `side` for `waker` makes of the source: a delivery
    /// that nobody consumed is dropped, then `waker` is registered.
    pub open spec fn arms(
        self,
        side: Side,
        waker: Waker,
        ticker: usize,
        after: SourceView,
        parked: Parked,
    ) -> bool {
        let idle = if self.ready(side) {
            self.released(side)
        } else {
            self
        };
        idle.registers(side, waker, ticker, after, parked)
    }

    /// The source after the reactor delivered `event` in round `tick`.
    pub open spec fn delivered(self, event: Event, tick: usize) -> SourceView {
        SourceView {
            read: if event.readable {
                self.read.delivered(tick)
            } else {
                self.read
            },
            write: if event.writable {
                self.write.delivered(tick)
            } else {
                self.write
            },
            ..self
        }
    }

    /// The wakers that the delivery of `event` takes off the source, the writers' first.
    pub open spec fn woken(self, event: Event) -> Seq<Waker> {
        let writers = if event.writable {
            self.write.parked()
        } else {
            Seq::empty()
        };
        let readers = if event.readable {
            self.read.parked()
        } else {
            Seq::empty()
        };
        writers + readers
    }

    /// The command that follows a delivery, if somebody still waits.
    pub open spec fn rearm(self) -> Option<PollerOp> {
        if self.read.is_empty() && self.write.is_empty() {
            None
        } else {
            Some(self.update_op())
        }
    }
}

impl Source {
    /// Creates a source that was registered under `key`.
    pub fn new(registration: Registration, key: usize, wake_mode: WakeMode) -> (source: Source)
        ensures
            source@ == SourceView::fresh(registration, key, wake_mode),
    {
        Source {
            registration,
            key,
            read: Direction::default(),
            write: Direction::default(),
            wake_mode,
        }
    }

    /// Returns the wake mode for this source.
    pub fn wake_mode(&self) -> (mode: WakeMode)
        ensures
            mode == self@.wake_mode,
    {
        self.wake_mode
    }

    /// Returns this source's registration.
    pub fn registration(&self) -> (registration: &Registration)
        ensures
            *registration == self@.registration,
    {
        &self.registration
    }

    /// Returns the key of this source.
    pub fn key(&self) -> (key: usize)
        ensures
            key == self@.key,
    {
        self.key
    }

    /// Returns `true` if a delivery has occurred since the last `capture` on this direction.
    ///
    /// In level mode, with the captured pair of the reactor's ticker and of the direction's tick:
    /// the direction's tick differs from both. In edge mode: the count of events differs from the
    /// captured one. Without a snapshot nothing is ready.
    pub fn check_ready(dir: &Direction, mode: WakeMode) -> (ready: bool)
        ensures
            ready == dir@.ready(mode),
            ready == match mode {
                WakeMode::Level => dir.ticks matches Some((round, last)) && dir.tick != round
                    && dir.tick != last,
                WakeMode::Edge => dir.captured_events matches Some(count) && dir.events != count,
            },
    {
        match mode {
            WakeMode::Level => match dir.ticks {
                Some((round, last)) => dir.tick != round && dir.tick != last,
                None => false,
            },
            WakeMode::Edge => match dir.captured_events {
                Some(captured) => dir.events != captured,
                None => false,
            },
        }
    }

    /// Records the state that `check_ready` needs to detect a later delivery. `ticker` is the
    /// reactor's present round.
    pub fn capture(dir: &mut Direction, mode: WakeMode, ticker: usize)
        ensures
            final(dir)@ == old(dir)@.captured(mode, ticker),
            match mode {
                WakeMode::Level => {
                    &&& final(dir).ticks == Some((ticker, old(dir).tick))
                    &&& final(dir).captured_events is None
                },
                WakeMode::Edge => {
                    &&& final(dir).captured_events == Some(old(dir).events)
                    &&& final(dir).ticks is None
                },
            },
    {
        match mode {
            WakeMode::Level => {
                dir.ticks = Some((ticker, dir.tick));
                dir.captured_events = None;
            },
            WakeMode::Edge => {
                dir.captured_events = Some(dir.events);
                dir.ticks = None;
            },
        }
    }

    /// The interest of all that wait on this source.
    fn interest(&self) -> (event: Event)
        ensures
            event == self@.interest(),
    {
        let mut event = Event::none(self.key);
        event.readable = !self.read.is_empty();
        event.writable = !self.write.is_empty();
        event
    }

    /// Consumes a delivery to the polling task of `side`; tells whether there was one.
    pub fn take_ready(&mut self, side: Side) -> (ready: bool)
        requires
            old(self)@.wf(),
        ensures
            final(self)@.wf(),
            ready == old(self)@.ready(side),
            final(self)@ == if ready {
                old(self)@.released(side)
            } else {
                old(self)@
            },
    {
        let mode = self.wake_mode;
        let dir = match side {
            Side::Read => &mut self.read,
            Side::Write => &mut self.write,
        };
        if Self::check_ready(dir, mode) {
            dir.ticks = None;
            dir.captured_events = None;
            true
        } else {
            false
        }
    }

    /// Parks the polling task of `side` under `waker`, with a fresh snapshot. A waker that was in
    /// place is handed back.
    pub fn park(&mut self, side: Side, waker: Waker, ticker: usize) -> (parked: Parked)
        ensures
            final(self)@ == old(self)@.parking(side, waker, ticker),
            final(self)@.armed(side),
            old(self)@.wf() ==> final(self)@.wf(),
            parked == old(self)@.parking_leaves(side, final(self)@),
    {
        let mode = self.wake_mode;
        let dir = match side {
            Side::Read => &mut self.read,
            Side::Write => &mut self.write,
        };
        let was_empty = dir.is_empty();
        let replaced = dir.waker.take();
        dir.waker = Some(waker);
        Self::capture(dir, mode, ticker);
        let update = if was_empty {
            Some(self.registration.modify(self.interest()))
        } else {
            None
        };
        Parked { replaced, update }
    }

    /// Whether there is a waker in place on `side` that is known to wake the same task as `waker`.
    fn is_in_place(&self, side: Side, waker: &Waker) -> (known: bool)
        ensures
            known ==> (self@.side(side).waker matches Some(present) && wakes_same_task(
                present,
                *waker,
            )),
    {
        let in_place = match side {
            Side::Read => &self.read.waker,
            Side::Write => &self.write.waker,
        };
        match in_place {
            Some(present) => present.will_wake(waker),
            None => false,
        }
    }

    /// Registers `waker` on `side`, where `same_task` says whether a waker in place is known to
    /// wake the same task. Such a waker is kept; any other is replaced and handed back.
    pub fn register_known(&mut self, side: Side, waker: Waker, ticker: usize, same_task: bool) -> (parked:
        Parked)
        requires
            old(self)@.wf(),
        ensures
            final(self)@.wf(),
            final(self)@.armed(side),
            old(self)@.registers_known(side, waker, ticker, same_task, final(self)@, parked),
    {
        let in_place = match side {
            Side::Read => self.read.waker.is_some(),
            Side::Write => self.write.waker.is_some(),
        };
        if same_task && in_place {
            return Parked { replaced: None, update: None };
        }
        self.park(side, waker, ticker)
    }

    /// Registers `waker` on `side`. A waker in place that is known to wake the same task is kept;
    /// any other is replaced and handed back.
    pub fn register(&mut self, side: Side, waker: Waker, ticker: usize) -> (parked: Parked)
        requires
            old(self)@.wf(),
        ensures
            final(self)@.wf(),
            final(self)@.armed(side),
            old(self)@.registers(side, waker, ticker, final(self)@, parked),
    {
        let same_task = self.is_in_place(side, &waker);
        self.register_known(side, waker, ticker, same_task)
    }

    /// Polls the source for readiness on `side`, where `same_task` says whether a waker in place
    /// is known to wake the same task as `waker`: consumes a delivery if there was one, and
    /// registers `waker` if there was none.
    pub fn poll_ready_known(
        &mut self,
        side: Side,
        waker: Waker,
        ticker: usize,
        same_task: bool,
    ) -> (poll: PollReady)
        requires
            old(self)@.wf(),
        ensures
            final(self)@.wf(),
            poll is Ready <==> old(self)@.ready(side),
            match poll {
                PollReady::Ready => final(self)@ == old(self)@.released(side),
                PollReady::Pending(parked) => {
                    &&& final(self)@.armed(side)
                    &&& old(self)@.registers_known(
                        side,
                        waker,
                        ticker,
                        same_task,
                        final(self)@,
                        parked,
                    )
                },
            },
    {
        if self.take_ready(side) {
            PollReady::Ready
        } else {
            PollReady::Pending(self.register_known(side, waker, ticker, same_task))
        }
    }

    /// Polls the source for readiness on `side`: consumes a delivery if there was one, and
    /// registers `waker` if there was none.
    pub fn poll_ready(&mut self, side: Side, waker: Waker, ticker: usize) -> (poll: PollReady)
        requires
            old(self)@.wf(),
        ensures
            final(self)@.wf(),
            old(self)@.polled(side, waker, ticker, final(self)@, poll),
    {
        let same_task = self.is_in_place(side, &waker);
        self.poll_ready_known(side, waker, ticker, same_task)
    }

    /// Polls the I/O source for readability.
    pub fn poll_readable(&mut self, waker: Waker, ticker: usize) -> (poll: PollReady)
        requires
            old(self)@.wf(),
        ensures
            final(self)@.wf(),
            old(self)@.polled(Side::Read, waker, ticker, final(self)@, poll),
    {
        self.poll_ready(Side::Read, waker, ticker)
    }

    /// Polls the I/O source for writability.
    pub fn poll_writable(&mut self, waker: Waker, ticker: usize) -> (poll: PollReady)
        requires
            old(self)@.wf(),
        ensures
            final(self)@.wf(),
            old(self)@.polled(Side::Write, waker, ticker, final(self)@, poll),
    {
        self.poll_ready(Side::Write, waker, ticker)
    }

    /// Arms `side` ahead of an operation: drops a delivery that nobody consumed, and parks the
    /// task. Afterwards the snapshot of an edge-mode source is its present count of events, so
    /// every delivery from now on, also one that races the submission, makes the next poll ready.
    pub fn arm(&mut self, side: Side, waker: Waker, ticker: usize) -> (parked: Parked)
        requires
            old(self)@.wf(),
        ensures
            final(self)@.wf(),
            final(self)@.armed(side),
            old(self)@.arms(side, waker, ticker, final(self)@, parked),
    {
        self.take_ready(side);
        self.register(side, waker, ticker)
    }

    /// Delivers `event` in round `tick`: counts it, moves the wakers of those who waited for it
    /// to the end of `wakers`, and returns the command that restates the interest of those who
    /// still wait.
    pub fn deliver(&mut self, event: Event, tick: usize, wakers: &mut Vec<Waker>) -> (update:
        Option<PollerOp>)
        requires
            old(self)@.wf(),
        ensures
            final(self)@.wf(),
            final(self)@ == old(self)@.delivered(event, tick),
            final(wakers)@ == old(wakers)@ + old(self)@.woken(event),
            update == final(self)@.rearm(),
            update is None <==> final(self)@.read.is_empty() && final(self)@.write.is_empty(),
    {
        if event.writable {
            self.write.tick = tick;
            self.write.events = self.write.events.wrapping_add(1);
            self.write.drain_into(wakers);
        }
        if event.readable {
            self.read.tick = tick;
            self.read.events = self.read.events.wrapping_add(1);
            self.read.drain_into(wakers);
        }
        if !self.read.is_empty() || !self.write.is_empty() {
            Some(self.registration.modify(self.interest()))
        } else {
            None
        }
    }

    /// A future for the next event on `side`, not polled yet.
    pub fn ready(&self, side: Side) -> (ready: Ready)
        ensures
            ready == Ready::unpolled(self@.wake_mode, side),
    {
        Ready { wake_mode: self.wake_mode, side, ticks: None, captured_events: None, index: None }
    }

    /// Waits until the I/O source is readable.
    pub fn readable(&self) -> (readable: Readable)
        ensures
            readable.ready == Ready::unpolled(self@.wake_mode, Side::Read),
    {
        Readable { ready: self.ready(Side::Read) }
    }

    /// Waits until the I/O source is writable.
    pub fn writable(&self) -> (writable: Writable)
        ensures
            writable.ready == Ready::unpolled(self@.wake_mode, Side::Write),
    {
        Writable { ready: self.ready(Side::Write) }
    }
}

/// The state of a future that waits for the next event on one side of a source. Any number of
/// them may wait at once; each has a slot of its own.
#[derive(Debug)]
pub struct Ready {
    /// How the source reports readiness.
    pub wake_mode: WakeMode,
    /// The side that is waited on.
    pub side: Side,
    /// In level mode: the reactor's ticker and the direction's tick at the first poll.
    pub ticks: Option<(usize, usize)>,
    /// In edge mode: the direction's count of events at the first poll.
    pub captured_events: Option<u64>,
    /// The slot of the future's waker, from the first poll on.
    pub index: Option<usize>,
}

impl Ready {
    /// A future that was not polled yet.
    pub open spec fn unpolled(wake_mode: WakeMode, side: Side) -> Ready {
        Ready { wake_mode, side, ticks: None, captured_events: None, index: None }
    }

    /// The slot of the future, if it has one, is a slot of `source`.
    pub open spec fn belongs_to(self, source: SourceView) -> bool {
        match self.index {
            Some(key) => source.side(self.side).slots.contains_key(key),
            None => true,
        }
    }

    /// An event was delivered since the first poll.
    pub open spec fn is_ready(self, source: SourceView) -> bool {
        let direction = source.side(self.side);
        match self.wake_mode {
            WakeMode::Level => match self.ticks {
                Some((round, last)) => direction.tick != round && direction.tick != last,
                None => false,
            },
            WakeMode::Edge => match self.captured_events {
                Some(captured) => direction.events != captured,
                None => false,
            },
        }
    }

    /// The future after its first poll gave it the slot `key`, in round `ticker`.
    pub open spec fn captured(self, source: SourceView, ticker: usize, key: usize) -> Ready {
        let direction = source.side(self.side);
        match self.wake_mode {
            WakeMode::Level => Ready {
                ticks: Some((ticker, direction.tick)),
                index: Some(key),
                ..self
            },
            WakeMode::Edge => Ready {
                captured_events: Some(direction.events),
                index: Some(key),
                ..self
            },
        }
    }

    /// The source after the future gave its slot back.
    pub open spec fn cancelled(self, source: SourceView) -> SourceView {
        match self.index {
            Some(key) => source.without_slot(self.side, key),
            None => source,
        }
    }

    /// `after`, `source_after` and `poll` are what a poll makes of the future and the source: if
    /// the event was delivered, all stays as it is; if not, the future's slot holds `waker`, and
    /// the first such poll takes a vacant slot and the snapshot.
    pub open spec fn polls(
        self,
        source: SourceView,
        waker: Waker,
        ticker: usize,
        after: Ready,
        source_after: SourceView,
        poll: PollReady,
    ) -> bool {
        let before = source.side(self.side);
        match poll {
            PollReady::Ready => {
                &&& self.is_ready(source)
                &&& after == self
                &&& source_after == source
            },
            PollReady::Pending(parked) => {
                &&& !self.is_ready(source)
                &&& after.index matches Some(key) && source_after == source.with_slot(
                    self.side,
                    key,
                    waker,
                ) && match self.index {
                    Some(_) => after == self,
                    None => !before.slots.contains_key(key) && after == self.captured(
                        source,
                        ticker,
                        key,
                    ),
                }
                &&& parked.replaced is None
                &&& parked.update == if before.is_empty() {
                    Some(source_after.update_op())
                } else {
                    None
                }
            },
        }
    }

    /// Polls for the event; without one, the future's slot holds `waker` afterwards. The first
    /// such poll takes a vacant slot and the snapshot.
    pub fn poll(&mut self, source: &mut Source, waker: Waker, ticker: usize) -> (poll: PollReady)
        requires
            old(self).belongs_to(old(source)@),
        ensures
            final(self).belongs_to(final(source)@),
            old(source)@.wf() ==> final(source)@.wf(),
            old(self).polls(old(source)@, waker, ticker, *final(self), final(source)@, poll),
    {
        let dir = match self.side {
            Side::Read => &mut source.read,
            Side::Write => &mut source.write,
        };
        let ready = match self.wake_mode {
            WakeMode::Level => match self.ticks {
                Some((round, last)) => dir.tick != round && dir.tick != last,
                None => false,
            },
            WakeMode::Edge => match self.captured_events {
                Some(captured) => dir.events != captured,
                None => false,
            },
        };
        if ready {
            return PollReady::Ready;
        }
        let was_empty = dir.is_empty();
        let key: usize = match self.index {
            Some(key) => key,
            None => {
                let key: usize = insert_slot(&mut dir.wakers, None);
                self.index = Some(key);
                match self.wake_mode {
                    WakeMode::Level => {
                        self.ticks = Some((ticker, dir.tick));
                    },
                    WakeMode::Edge => {
                        self.captured_events = Some(dir.events);
                    },
                }
                key
            },
        };
        if let Some(slot) = get_slot_mut(&mut dir.wakers, key) {
            *slot = Some(waker);
        }
        assert(source@ =~= old(source)@.with_slot(self.side, key, waker));
        let update = if was_empty {
            Some(source.registration.modify(source.interest()))
        } else {
            None
        };
        PollReady::Pending(Parked { replaced: None, update })
    }

    /// Gives the future's slot back. It is called when the future is dropped.
    pub fn cancel(self, source: &mut Source)
        ensures
            old(source)@.wf() ==> final(source)@.wf(),
            final(source)@ == self.cancelled(old(source)@),
    {
        if let Some(key) = self.index {
            let dir = match self.side {
                Side::Read => &mut source.read,
                Side::Write => &mut source.write,
            };
            if contains_slot(&dir.wakers, key) {
                remove_slot(&mut dir.wakers, key);
            }
        }
    }
}

/// The state of the future of [`Source::readable`].
#[derive(Debug)]
pub struct Readable {
    /// The state of the wait.
    pub ready: Ready,
}

impl Readable {
    /// Polls for the event; see [`Ready::poll`].
    pub fn poll(&mut self, source: &mut Source, waker: Waker, ticker: usize) -> (poll: PollReady)
        requires
            old(self).ready.belongs_to(old(source)@),
        ensures
            final(self).ready.belongs_to(final(source)@),
            old(source)@.wf() ==> final(source)@.wf(),
            old(self).ready.polls(
                old(source)@,
                waker,
                ticker,
                final(self).ready,
                final(source)@,
                poll,
            ),
    {
        self.ready.poll(source, waker, ticker)
    }
}

/// The state of the future of [`Source::writable`].
#[derive(Debug)]
pub struct Writable {
    /// The state of the wait.
    pub ready: Ready,
}

impl Writable {
    /// Polls for the event; see [`Ready::poll`].
    pub fn poll(&mut self, source: &mut Source, waker: Waker, ticker: usize) -> (poll: PollReady)
        requires
            old(self).ready.belongs_to(old(source)@),
        ensures
            final(self).ready.belongs_to(final(source)@),
            old(source)@.wf() ==> final(source)@.wf(),
            old(self).ready.polls(
                old(source)@,
                waker,
                ticker,
                final(self).ready,
                final(source)@,
                poll,
            ),
    {
        self.ready.poll(source, waker, ticker)
    }
}

} // verus!
