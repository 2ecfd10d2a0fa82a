//! Sources, timers and rounds of the reactor.

use async_io::direction::{Direction, WakeMode};
use async_io::event::Event;
use async_io::reactor::{AfterWait, Reactor, WaitOutcome, TIMER_QUEUE_SIZE};
use async_io::registration::{PollerOp, Registration};
use async_io::source::{Parked, PollReady, Side, Source};
use async_io::timers::saturating_nanos_until;
use std::sync::{Arc, Mutex};
use std::task::{Wake, Waker};

/// A waker that writes its number down.
struct Note {
    number: usize,
    log: Arc<Mutex<Vec<usize>>>,
}

impl Wake for Note {
    fn wake(self: Arc<Self>) {
        self.log.lock().unwrap().push(self.number);
    }
}

#[derive(Clone, Default)]
struct Log(Arc<Mutex<Vec<usize>>>);

impl Log {
    fn waker(&self, number: usize) -> Waker {
        Waker::from(Arc::new(Note { number, log: self.0.clone() }))
    }

    fn wake_all(&self, wakers: Vec<Waker>) -> Vec<usize> {
        for waker in wakers {
            waker.wake();
        }
        std::mem::take(&mut *self.0.lock().unwrap())
    }
}

fn event(key: usize, readable: bool, writable: bool) -> Event {
    Event { key, readable, writable }
}

fn pending(poll: PollReady) -> Parked {
    match poll {
        PollReady::Pending(parked) => parked,
        PollReady::Ready => panic!("ready"),
    }
}

fn is_ready(poll: PollReady) -> bool {
    matches!(poll, PollReady::Ready)
}

// ---- Registrations ----

#[test]
fn registration_commands() {
    let interest = event(4, true, false);
    let none = event(4, false, false);

    let socket = Registration::new(77);
    assert_eq!(socket, Registration::Socket(77));
    assert_eq!(socket.registered_file(), None);
    assert_eq!(socket.add(4), PollerOp::Add { socket: 77, interest: none });
    assert_eq!(socket.modify(interest), PollerOp::Modify { socket: 77, interest });
    assert_eq!(socket.delete(), PollerOp::Delete { socket: 77 });

    let handle = Registration::new_waitable(8);
    assert_eq!(handle, Registration::Handle(8));
    assert_eq!(handle.registered_file(), None);
    assert_eq!(handle.add(4), PollerOp::AddWaitable { handle: 8, interest: none });
    assert_eq!(handle.modify(interest), PollerOp::ModifyWaitable { handle: 8, interest });
    assert_eq!(handle.delete(), PollerOp::RemoveWaitable { handle: 8 });

    let file = Registration::new_file(9);
    assert_eq!(file, Registration::File(9));
    assert_eq!(file.registered_file(), Some(9));
    assert_eq!(file.add(4), PollerOp::SetUserKey { file: 9, key: 4 });
    assert_eq!(file.modify(interest), PollerOp::Nothing);
    assert_eq!(file.delete(), PollerOp::Deactivate { file: 9 });
}

#[test]
fn event_none_has_no_readiness() {
    assert_eq!(Event::none(3), event(3, false, false));
}

// ---- Directions ----

#[test]
fn direction_hands_over_wakers_in_order() {
    let log = Log::default();
    let mut dir = Direction::default();
    assert!(dir.is_empty());
    dir.wakers.insert(Some(log.waker(1)));
    let hole = dir.wakers.insert(Some(log.waker(2)));
    dir.wakers.insert(None);
    dir.wakers.insert(Some(log.waker(3)));
    dir.wakers.remove(hole);
    dir.waker = Some(log.waker(0));
    assert!(!dir.is_empty());

    let mut wakers = vec![log.waker(9)];
    dir.drain_into(&mut wakers);
    assert_eq!(log.wake_all(wakers), [9, 0, 1, 3]);
    assert!(dir.is_empty());
    // The slots stay with their owners.
    assert_eq!(dir.wakers.len(), 3);
}

// ---- Polling a source ----

#[test]
fn poll_parks_and_delivery_wakes() {
    let log = Log::default();
    let mut source = Source::new(Registration::Socket(5), 2, WakeMode::Level);
    assert_eq!(source.key(), 2);
    assert_eq!(source.wake_mode(), WakeMode::Level);
    assert_eq!(*source.registration(), Registration::Socket(5));

    let parked = pending(source.poll_readable(log.waker(1), 0));
    assert!(parked.replaced.is_none());
    assert_eq!(
        parked.update,
        Some(PollerOp::Modify { socket: 5, interest: event(2, true, false) })
    );
    // A second direction states the interest in both.
    let parked = pending(source.poll_writable(log.waker(2), 0));
    assert_eq!(
        parked.update,
        Some(PollerOp::Modify { socket: 5, interest: event(2, true, true) })
    );

    // The reader is woken; the writer still waits, and the interest in writing is restated.
    let mut wakers = Vec::new();
    let update = source.deliver(event(2, true, false), 1, &mut wakers);
    assert_eq!(log.wake_all(wakers), [1]);
    assert_eq!(
        update,
        Some(PollerOp::Modify { socket: 5, interest: event(2, false, true) })
    );
    assert!(is_ready(source.poll_readable(log.waker(1), 1)));
    // The delivery was consumed.
    assert!(!is_ready(source.poll_readable(log.waker(1), 1)));

    let mut wakers = Vec::new();
    let update = source.deliver(event(2, true, true), 2, &mut wakers);
    assert_eq!(log.wake_all(wakers), [2, 1]);
    assert_eq!(update, None);
}

#[test]
fn same_task_keeps_its_place_and_another_replaces_it() {
    let log = Log::default();
    let mut source = Source::new(Registration::Socket(5), 0, WakeMode::Level);
    let first = log.waker(1);
    pending(source.poll_readable(first.clone(), 0));

    let parked = pending(source.poll_readable(first, 0));
    assert!(parked.replaced.is_none());
    assert_eq!(parked.update, None);

    let parked = pending(source.poll_readable(log.waker(2), 0));
    assert_eq!(log.wake_all(parked.replaced.into_iter().collect()), [1]);
    assert_eq!(parked.update, None);

    let mut wakers = Vec::new();
    source.deliver(event(0, true, false), 1, &mut wakers);
    assert_eq!(log.wake_all(wakers), [2]);
}

#[test]
fn answer_decides_whose_waker_is_in_place() {
    let log = Log::default();
    let after = |first: bool, same_task: bool| {
        let mut source = Source::new(Registration::Socket(5), 0, WakeMode::Level);
        if first {
            source.register(Side::Read, log.waker(1), 0);
        }
        let parked = pending(source.poll_ready_known(Side::Read, log.waker(2), 0, same_task));
        let replaced = log.wake_all(parked.replaced.into_iter().collect());
        let mut wakers = Vec::new();
        source.deliver(event(0, true, false), 1, &mut wakers);
        // What was delivered is found, whatever the answer is.
        assert!(is_ready(source.poll_ready_known(Side::Read, log.waker(2), 1, same_task)));
        (replaced, parked.update.is_some(), log.wake_all(wakers))
    };
    assert_eq!(after(true, true), (vec![], false, vec![1]));
    assert_eq!(after(true, false), (vec![1], false, vec![2]));
    // Without a waker in place the task is parked, whatever the answer is.
    assert_eq!(after(false, true), (vec![], true, vec![2]));
    assert_eq!(after(false, false), (vec![], true, vec![2]));
}

#[test]
fn every_registered_task_is_woken() {
    let log = Log::default();
    let mut source = Source::new(Registration::File(5), 0, WakeMode::Edge);
    let mut woken = Vec::new();
    for n in 0..3 {
        let parked = source.arm(Side::Write, log.waker(n), 0);
        woken.extend(parked.replaced);
    }
    source.deliver(event(0, false, true), 1, &mut woken);
    assert_eq!(log.wake_all(woken), [0, 1, 2]);
}

#[test]
fn level_delivery_in_own_round_is_not_noticed() {
    let log = Log::default();
    let mut source = Source::new(Registration::Socket(5), 0, WakeMode::Level);
    pending(source.poll_readable(log.waker(1), 3));
    let mut wakers = Vec::new();
    source.deliver(event(0, true, false), 3, &mut wakers);
    assert_eq!(log.wake_all(wakers), [1]);
    pending(source.poll_readable(log.waker(1), 3));
    source.deliver(event(0, true, false), 4, &mut Vec::new());
    assert!(is_ready(source.poll_readable(log.waker(1), 4)));
}

#[test]
fn edge_delivery_in_own_round_is_noticed() {
    let log = Log::default();
    let mut source = Source::new(Registration::File(5), 0, WakeMode::Edge);
    let parked = pending(source.poll_readable(log.waker(1), 3));
    assert_eq!(parked.update, Some(PollerOp::Nothing));
    source.deliver(event(0, true, false), 3, &mut Vec::new());
    assert!(is_ready(source.poll_readable(log.waker(1), 3)));
    // The other direction does not count.
    pending(source.poll_readable(log.waker(1), 3));
    source.deliver(event(0, false, true), 4, &mut Vec::new());
    assert!(!is_ready(source.poll_readable(log.waker(1), 4)));
}

#[test]
fn arming_drops_a_stale_delivery() {
    let log = Log::default();
    let mut source = Source::new(Registration::File(5), 0, WakeMode::Edge);
    pending(source.poll_readable(log.waker(1), 0));
    source.deliver(event(0, true, false), 1, &mut Vec::new());
    // A delivery that nobody consumed is no completion of what is submitted next.
    source.arm(Side::Read, log.waker(2), 1);
    assert!(!source.take_ready(Side::Read));
    // One that comes after arming is.
    source.deliver(event(0, true, false), 2, &mut Vec::new());
    assert!(source.take_ready(Side::Read));
    assert!(!source.take_ready(Side::Read));
}

// ---- Futures ----

#[test]
fn futures_wait_side_by_side() {
    let log = Log::default();
    let mut source = Source::new(Registration::Handle(6), 1, WakeMode::Level);
    let mut a = source.readable();
    let mut b = source.readable();
    let mut w = source.writable();

    let parked = pending(a.poll(&mut source, log.waker(1), 0));
    assert_eq!(
        parked.update,
        Some(PollerOp::ModifyWaitable { handle: 6, interest: event(1, true, false) })
    );
    let parked = pending(b.poll(&mut source, log.waker(2), 0));
    assert_eq!(parked.update, None);
    pending(w.poll(&mut source, log.waker(3), 0));
    assert_ne!(a.ready.index, b.ready.index);

    let mut wakers = Vec::new();
    source.deliver(event(1, true, false), 1, &mut wakers);
    assert_eq!(log.wake_all(wakers), [1, 2]);
    assert!(is_ready(a.poll(&mut source, log.waker(1), 1)));
    assert!(is_ready(b.poll(&mut source, log.waker(2), 1)));
    pending(w.poll(&mut source, log.waker(3), 1));
}

#[test]
fn edge_future_notices_any_delivery_since_its_first_poll() {
    let log = Log::default();
    let mut source = Source::new(Registration::File(6), 1, WakeMode::Edge);
    let mut future = source.writable();
    pending(future.poll(&mut source, log.waker(1), 5));
    pending(future.poll(&mut source, log.waker(2), 5));
    let mut wakers = Vec::new();
    source.deliver(event(1, false, true), 5, &mut wakers);
    assert_eq!(log.wake_all(wakers), [2]);
    assert!(is_ready(future.poll(&mut source, log.waker(2), 5)));
}

#[test]
fn dropped_future_is_not_woken() {
    let log = Log::default();
    let mut source = Source::new(Registration::Socket(6), 1, WakeMode::Level);
    let mut a = source.ready(Side::Read);
    let mut b = source.ready(Side::Read);
    pending(a.poll(&mut source, log.waker(1), 0));
    pending(b.poll(&mut source, log.waker(2), 0));
    a.cancel(&mut source);
    let mut wakers = Vec::new();
    source.deliver(event(1, true, false), 1, &mut wakers);
    assert_eq!(log.wake_all(wakers), [2]);
    // A future that never waited has nothing to give back.
    source.ready(Side::Write).cancel(&mut source);
}

// ---- Registering with the reactor ----

#[test]
fn sources_come_and_go() {
    let mut reactor = Reactor::new();
    assert_eq!(reactor.ticker(), 0);
    let (a, op) = reactor.insert_io(Registration::Socket(5));
    assert_eq!(op, PollerOp::Add { socket: 5, interest: event(a, false, false) });
    let (b, op) = reactor.insert_io_edge(Registration::File(6));
    assert_eq!(op, PollerOp::SetUserKey { file: 6, key: b });
    assert_ne!(a, b);
    assert_eq!(reactor.source(a).unwrap().wake_mode(), WakeMode::Level);
    assert_eq!(reactor.source(b).unwrap().wake_mode(), WakeMode::Edge);
    assert_eq!(reactor.source(b).unwrap().key(), b);

    assert_eq!(reactor.remove_io(a), PollerOp::Delete { socket: 5 });
    assert!(reactor.source(a).is_none());
    assert!(reactor.source_mut(a).is_none());
    assert!(reactor.source(b).is_some());
}

#[test]
fn refused_registration_leaves_no_trace() {
    let mut reactor = Reactor::new();
    let (a, _) = reactor.insert_io(Registration::Socket(5));
    let (b, _) = reactor.insert_io(Registration::Socket(6));
    reactor.insert_failed(b);
    assert!(reactor.source(b).is_none());
    assert_eq!(*reactor.source(a).unwrap().registration(), Registration::Socket(5));
}

// ---- Timers ----

#[test]
fn timers_fire_in_order_and_once() {
    let log = Log::default();
    let mut reactor = Reactor::new();
    assert_eq!(reactor.insert_timer(30, log.waker(30)), 1);
    assert_eq!(reactor.insert_timer(10, log.waker(10)), 2);
    assert_eq!(reactor.insert_timer(20, log.waker(20)), 3);
    assert_eq!(reactor.insert_timer(20, log.waker(21)), 4);

    let mut wakers = Vec::new();
    assert_eq!(reactor.process_timers(4, &mut wakers), Some(6));
    assert!(wakers.is_empty());
    // A timer set for exactly now is ready.
    assert_eq!(reactor.process_timers(20, &mut wakers), Some(0));
    assert_eq!(log.wake_all(wakers), [10, 20, 21]);

    let mut wakers = Vec::new();
    assert_eq!(reactor.process_timers(20, &mut wakers), Some(10));
    assert!(wakers.is_empty());
    assert_eq!(reactor.process_timers(31, &mut wakers), Some(0));
    assert_eq!(log.wake_all(wakers), [30]);
    assert_eq!(reactor.process_timers(32, &mut Vec::new()), None);
}

#[test]
fn removed_timer_does_not_fire() {
    let log = Log::default();
    let mut reactor = Reactor::new();
    let kept = reactor.insert_timer(5, log.waker(1));
    let gone = reactor.insert_timer(5, log.waker(2));
    assert_ne!(kept, gone);
    reactor.remove_timer(5, gone);
    let mut wakers = Vec::new();
    reactor.process_timers(5, &mut wakers);
    assert_eq!(log.wake_all(wakers), [1]);
}

#[test]
fn full_timer_queue_loses_nothing() {
    let log = Log::default();
    let mut reactor = Reactor::new();
    let count = 2 * TIMER_QUEUE_SIZE + 7;
    for n in 0..count {
        reactor.insert_timer(n as i128, log.waker(n));
    }
    reactor.remove_timer(3, 4);
    let mut wakers = Vec::new();
    assert_eq!(reactor.process_timers(count as i128, &mut wakers), Some(0));
    let expected: Vec<usize> = (0..count).filter(|n| *n != 3).collect();
    assert_eq!(log.wake_all(wakers), expected);
}

#[test]
fn wait_saturates() {
    assert_eq!(saturating_nanos_until(7, 4), 3);
    assert_eq!(saturating_nanos_until(4, 4), 0);
    assert_eq!(saturating_nanos_until(4, 7), 0);
    assert_eq!(saturating_nanos_until(-4, -7), 3);
    assert_eq!(saturating_nanos_until(i128::MAX, i128::MIN), u128::MAX);
}

// ---- Rounds ----

#[test]
fn round_limits_the_wait() {
    let log = Log::default();
    let mut reactor = Reactor::new();
    let pass = reactor.begin_react(0, None);
    assert_eq!(pass.tick, 1);
    assert_eq!(reactor.ticker(), 1);
    assert_eq!(pass.timeout, None);
    assert_eq!(reactor.begin_react(0, Some(9)).timeout, Some(9));
    reactor.insert_timer(5, log.waker(1));
    assert_eq!(reactor.begin_react(0, None).timeout, Some(5));
    assert_eq!(reactor.begin_react(0, Some(9)).timeout, Some(5));
    assert_eq!(reactor.begin_react(0, Some(2)).timeout, Some(2));
    let pass = reactor.begin_react(5, Some(2));
    assert_eq!(pass.timeout, Some(0));
    assert_eq!(log.wake_all(pass.wakers), [1]);
}

#[test]
fn timers_that_came_due_during_the_wait_fire() {
    let log = Log::default();
    let mut reactor = Reactor::new();
    reactor.insert_timer(5, log.waker(1));
    let mut pass = reactor.begin_react(0, None);
    assert_eq!(reactor.on_wait(&mut pass, WaitOutcome::NoEvents, 5), AfterWait::Finish);
    assert_eq!(log.wake_all(pass.wakers), [1]);
}

#[test]
fn timers_wait_for_the_next_round_where_there_was_no_wait() {
    let log = Log::default();
    let mut reactor = Reactor::new();
    reactor.insert_timer(5, log.waker(1));
    let mut pass = reactor.begin_react(0, Some(0));
    assert_eq!(reactor.on_wait(&mut pass, WaitOutcome::NoEvents, 5), AfterWait::Finish);
    assert!(pass.wakers.is_empty());

    let mut pass = reactor.begin_react(0, None);
    assert_eq!(reactor.on_wait(&mut pass, WaitOutcome::Interrupted, 5), AfterWait::Finish);
    assert_eq!(reactor.on_wait(&mut pass, WaitOutcome::Failed, 5), AfterWait::Fail);
    assert_eq!(reactor.on_wait(&mut pass, WaitOutcome::Events, 5), AfterWait::Dispatch);
    assert!(pass.wakers.is_empty());
}

#[test]
fn dispatch_stops_to_restate_interest() {
    let log = Log::default();
    let mut reactor = Reactor::new();
    let (a, _) = reactor.insert_io(Registration::Socket(5));
    let (b, _) = reactor.insert_io(Registration::Socket(6));
    pending(reactor.source_mut(a).unwrap().poll_readable(log.waker(1), 0));
    pending(reactor.source_mut(a).unwrap().poll_writable(log.waker(2), 0));
    pending(reactor.source_mut(b).unwrap().poll_readable(log.waker(3), 0));

    let mut pass = reactor.begin_react(0, None);
    let events =
        vec![event(99, true, true), event(a, false, true), event(b, true, false)];
    let (next, update) = reactor.dispatch(&mut pass, &events, 0);
    assert_eq!(next, 2);
    assert_eq!(
        update,
        Some(PollerOp::Modify { socket: 5, interest: event(a, true, false) })
    );
    let (next, update) = reactor.dispatch(&mut pass, &events, next);
    assert_eq!(next, 3);
    assert_eq!(update, None);
    assert_eq!(log.wake_all(pass.wakers), [2, 3]);

    // What was delivered in a round after the one in which the tasks parked is noticed.
    let tick = reactor.ticker();
    assert!(is_ready(reactor.source_mut(a).unwrap().poll_writable(log.waker(2), tick)));
    assert!(is_ready(reactor.source_mut(b).unwrap().poll_readable(log.waker(3), tick)));
    pending(reactor.source_mut(a).unwrap().poll_readable(log.waker(1), tick));
}

#[test]
fn processing_timers_in_steps_is_processing_them_at_once() {
    let log = Log::default();
    let deadlines = [7, -3, 12, 7, 0, 9];
    let mut stepwise = Reactor::new();
    let mut at_once = Reactor::new();
    for (n, when) in deadlines.iter().enumerate() {
        stepwise.insert_timer(*when, log.waker(n));
        at_once.insert_timer(*when, log.waker(n));
    }
    let mut wakers = Vec::new();
    for now in [-5, 0, 7, 9] {
        stepwise.process_timers(now, &mut wakers);
    }
    assert_eq!(log.wake_all(wakers), [1, 4, 0, 3, 5]);
    let mut wakers = Vec::new();
    at_once.process_timers(9, &mut wakers);
    assert_eq!(log.wake_all(wakers), [1, 4, 0, 3, 5]);
    assert_eq!(stepwise.process_timers(9, &mut Vec::new()), Some(3));
    assert_eq!(at_once.process_timers(9, &mut Vec::new()), Some(3));
}

#[test]
fn inserted_and_removed_timer_leaves_nothing() {
    let log = Log::default();
    let mut reactor = Reactor::new();
    let id = reactor.insert_timer(5, log.waker(1));
    reactor.remove_timer(5, id);
    let mut wakers = Vec::new();
    assert_eq!(reactor.process_timers(9, &mut wakers), None);
    assert!(wakers.is_empty());
}

#[test]
fn dispatch_in_parts_is_dispatch_in_one() {
    let log = Log::default();
    let run = |parts: &[Vec<Event>]| {
        let mut reactor = Reactor::new();
        for n in 0..3 {
            let (key, _) = reactor.insert_io_edge(Registration::File(n));
            assert_eq!(key, n);
            pending(reactor.source_mut(key).unwrap().poll_readable(log.waker(10 + n), 0));
            pending(reactor.source_mut(key).unwrap().poll_writable(log.waker(20 + n), 0));
        }
        let mut pass = reactor.begin_react(0, None);
        for events in parts {
            let mut next = 0;
            while next < events.len() {
                next = reactor.dispatch(&mut pass, events, next).0;
            }
        }
        let mut ready = Vec::new();
        for n in 0..3 {
            let source = reactor.source_mut(n).unwrap();
            ready.push((source.take_ready(Side::Read), source.take_ready(Side::Write)));
        }
        (log.wake_all(pass.wakers), ready)
    };
    let events =
        vec![event(2, true, false), event(0, true, true), event(2, true, false), event(7, true, true)];
    let (woken, ready) = run(&[events.clone()]);
    assert_eq!(woken, [12, 20, 10]);
    assert_eq!(ready, [(true, true), (false, false), (true, false)]);
    assert_eq!(run(&[events[..1].to_vec(), events[1..].to_vec()]), (woken, ready));
}

#[test]
fn cancelled_future_leaves_the_source_as_it_was() {
    let log = Log::default();
    let mut source = Source::new(Registration::Socket(6), 1, WakeMode::Edge);
    let mut future = source.ready(Side::Read);
    pending(future.poll(&mut source, log.waker(1), 0));
    future.cancel(&mut source);
    // Nobody waits: the next one to wait has its interest stated.
    let parked = pending(source.poll_readable(log.waker(2), 0));
    assert_eq!(
        parked.update,
        Some(PollerOp::Modify { socket: 6, interest: event(1, true, false) })
    );
}
