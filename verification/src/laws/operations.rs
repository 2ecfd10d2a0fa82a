//! Laws of operations on a pipe: each is submitted once, with its task registered beforehand, and
//! ends once, with the result that the operating system gave.

use crate::direction::WakeMode;
use crate::event::Event;
use crate::laws::readiness::{
    after_deliveries, arming_takes_a_current_snapshot, count_on, delivery_is_consumed_once,
    edge_ready_iff_delivered, event_counts, leaves_to_do, nothing_is_left_undone, opposite,
    registered_task_is_woken,
};
use crate::operation::{
    polls_op, Finished, OpKind, OpState, OpStep, OwnedOp, OwnedStep, Submission,
};
use crate::os_error::os_code;
use crate::source::{wakes_same_task, Parked, Side, SourceView};
use crate::stream::{finishes_read, DirState, FuturesIoState, IoBegin, IoWait};
use crate::win32::{ERROR_BROKEN_PIPE, ERROR_HANDLE_EOF, ERROR_OPERATION_ABORTED};
use std::io;
use std::task::Waker;
use vstd::prelude::*;

verus! {

/// Some waker of `source` that an event of `side` takes off wakes the task of `waker`.
pub open spec fn next_event_wakes(source: SourceView, side: Side, waker: Waker) -> bool {
    forall|event: Event|
        (match side {
            Side::Read => event.readable,
            Side::Write => event.writable,
        }) ==> exists|woken: Waker| #[trigger]
            source.woken(event).contains(woken) && (woken == waker || wakes_same_task(
                woken,
                waker,
            ))
}

/// In edge mode a poll of `source` finds something exactly if events of `side` are delivered from
/// now on, but for a multiple of 2^64 of them.
pub open spec fn notices_from_now_on(source: SourceView, side: Side) -> bool {
    forall|deliveries: Seq<(Event, usize)>|
        (#[trigger] after_deliveries(source, deliveries)).ready(side) <==> count_on(
            deliveries,
            side,
        ) as int % event_counts() != 0
}

/// Whoever arms a source is woken by the next event, and in edge mode misses none.
proof fn lemma_armed(
    before: SourceView,
    side: Side,
    waker: Waker,
    ticker: usize,
    after: SourceView,
    parked: Parked,
)
    requires
        before.wf(),
        before.arms(side, waker, ticker, after, parked),
    ensures
        next_event_wakes(after, side, waker),
        before.wake_mode == WakeMode::Edge ==> notices_from_now_on(after, side),
        leaves_to_do(before, side, after, parked),
        after.side(opposite(side)) == before.side(opposite(side)),
{
    lemma_registered(before, side, waker, ticker, after, parked);
    arming_takes_a_current_snapshot(before, side, waker, ticker, after, parked);
    if before.wake_mode == WakeMode::Edge {
        assert forall|deliveries: Seq<(Event, usize)>|
            (#[trigger] after_deliveries(after, deliveries)).ready(side) <==> count_on(
                deliveries,
                side,
            ) as int % event_counts() != 0 by {
            edge_ready_iff_delivered(after, side, deliveries);
        }
    }
}

/// Whoever registers on a source is woken by the next event.
proof fn lemma_registered(
    before: SourceView,
    side: Side,
    waker: Waker,
    ticker: usize,
    after: SourceView,
    parked: Parked,
)
    requires
        before.registers(side, waker, ticker, after, parked) || before.arms(
            side,
            waker,
            ticker,
            after,
            parked,
        ),
    ensures
        next_event_wakes(after, side, waker),
        leaves_to_do(before, side, after, parked),
{
    nothing_is_left_undone(before, side, waker, ticker, after, parked);
    assert forall|event: Event|
        (match side {
            Side::Read => event.readable,
            Side::Write => event.writable,
        }) implies exists|woken: Waker| #[trigger]
        after.woken(event).contains(woken) && (woken == waker || wakes_same_task(woken, waker)) by {
        registered_task_is_woken(before, side, waker, ticker, after, parked, event);
    }
}

/// The buffer of an operation is handed out once, and only then; the task is registered before it
/// leaves. So the completion wakes the task, and in edge mode it is noticed however early it
/// comes. An operation that was submitted before is left alone.
pub proof fn buffer_is_handed_out_once<B, H>(
    op: OwnedOp<B, H>,
    source: SourceView,
    waker: Waker,
    ticker: usize,
    after: OwnedOp<B, H>,
    source_after: SourceView,
    begun: Option<(B, Parked)>,
)
    requires
        source.wf(),
        op.begins(source, waker, ticker, after, source_after, begun),
    ensures
        ({
            let side = match op.kind {
                OpKind::Write => Side::Write,
                _ => Side::Read,
            };
            match op.state {
                OpState::Start(buf) => {
                    &&& begun matches Some((out, parked)) && out == buf && leaves_to_do(
                        source,
                        side,
                        source_after,
                        parked,
                    )
                    &&& after.kind == op.kind
                    &&& after.state !is Start
                    &&& after.state !is InFlight
                    &&& next_event_wakes(source_after, side, waker)
                    &&& source.wake_mode == WakeMode::Edge ==> notices_from_now_on(
                        source_after,
                        side,
                    )
                    &&& source_after.side(opposite(side)) == source.side(opposite(side))
                },
                _ => {
                    &&& begun is None
                    &&& after == op
                    &&& source_after == source
                },
            }
        }),
{
    if let OpState::Start(_) = op.state {
        let (_, parked) = begun->0;
        lemma_armed(source, op.kind.side(), waker, ticker, source_after, parked);
    }
}

/// A submission that ended at once, well or badly, gives the caller the buffer that was submitted
/// and the operating system's result, but that a read at the end of the pipe is one of nothing.
/// One in flight gives nothing yet, and its handle is kept.
pub proof fn submission_ends_or_is_in_flight<B, H>(
    op: OwnedOp<B, H>,
    submission: Submission<B, H>,
    after: OwnedOp<B, H>,
    finished: Option<Finished<B>>,
)
    requires
        op.submits(submission, after, finished),
    ensures
        after.kind == op.kind,
        match submission {
            Submission::Pending(handle) => {
                &&& finished is None
                &&& after.handle() == Some(handle)
            },
            Submission::Complete { bytes, buf } => {
                &&& after.handle() is None
                &&& after.state !is Start
                &&& finished matches Some(end) && {
                    &&& end.buf == buf
                    &&& end.result == Ok::<usize, io::Error>(bytes)
                    &&& end.filled is Some <==> op.kind == OpKind::Read
                    &&& end.filled matches Some(filled) ==> filled == bytes
                }
            },
            Submission::Failed { error, buf } => {
                let code = os_code(error);
                &&& after.handle() is None
                &&& after.state !is Start
                &&& finished matches Some(end) && {
                    &&& end.buf == buf
                    &&& if op.kind == OpKind::Read && (code == Some(ERROR_BROKEN_PIPE) || code
                        == Some(ERROR_OPERATION_ABORTED) || code == Some(ERROR_HANDLE_EOF)) {
                        end.result == Ok::<usize, io::Error>(0) && end.filled == Some(0usize)
                    } else {
                        end.result == Err::<usize, io::Error>(error) && end.filled is None
                    }
                }
            },
        },
{
}

/// The handle of an operation in flight is given out exactly if the operation has ended, and then
/// it is in flight no more. Until then the operation stays as it is: the task is registered, to be
/// woken by the next event, unless an event came that nobody consumed, which is consumed, so that
/// the step after the next look registers the task.
pub proof fn handle_is_given_out_at_the_end<B, H>(
    op: OwnedOp<B, H>,
    complete: bool,
    source: SourceView,
    waker: Waker,
    ticker: usize,
    after: OwnedOp<B, H>,
    source_after: SourceView,
    step: OwnedStep<H>,
)
    requires
        op.state is InFlight,
        op.steps(complete, source, waker, ticker, after, source_after, step),
    ensures
        ({
            let side = match op.kind {
                OpKind::Write => Side::Write,
                _ => Side::Read,
            };
            &&& after.kind == op.kind
            &&& step is Take <==> complete
            &&& step is Again <==> !complete && source.ready(side)
            &&& source_after.side(opposite(side)) == source.side(opposite(side))
            &&& match step {
                OwnedStep::Take(handle) => {
                    &&& op.state == OpState::<B, H>::InFlight(handle)
                    &&& after.state is Done
                    &&& source_after == source
                },
                OwnedStep::Again => {
                    &&& after == op
                    &&& !source_after.ready(side)
                    &&& source_after.side(side).waker == source.side(side).waker
                    &&& source_after.side(side).slots == source.side(side).slots
                },
                OwnedStep::Pending(parked) => {
                    &&& after == op
                    &&& leaves_to_do(source, side, source_after, parked)
                    &&& next_event_wakes(source_after, side, waker)
                },
            }
        }),
{
    let side = op.kind.side();
    match step {
        OwnedStep::Take(_) => {},
        OwnedStep::Again => {
            delivery_is_consumed_once(source, side, Seq::empty());
        },
        OwnedStep::Pending(parked) => {
            lemma_registered(source, side, waker, ticker, source_after, parked);
        },
    }
}

/// A wait for a completion ends exactly if the operation has; otherwise it consumes an event that
/// came, or registers the task, to be woken by the next one. It looks again at most once in a row.
pub proof fn wait_ends_with_the_operation(
    complete: bool,
    source: SourceView,
    side: Side,
    waker: Waker,
    ticker: usize,
    after: SourceView,
    step: OpStep,
)
    requires
        polls_op(complete, source, side, waker, ticker, after, step),
    ensures
        step is Complete <==> complete,
        step is Again <==> !complete && source.ready(side),
        after.side(opposite(side)) == source.side(opposite(side)),
        match step {
            OpStep::Complete => after == source,
            OpStep::Again => {
                &&& !after.ready(side)
                &&& after.side(side).waker == source.side(side).waker
                &&& after.side(side).slots == source.side(side).slots
            },
            OpStep::Pending(parked) => {
                &&& leaves_to_do(source, side, after, parked)
                &&& next_event_wakes(after, side, waker)
            },
        },
{
    match step {
        OpStep::Complete => {},
        OpStep::Again => {
            delivery_is_consumed_once(source, side, Seq::empty());
        },
        OpStep::Pending(parked) => {
            lemma_registered(source, side, waker, ticker, after, parked);
        },
    }
}

/// An operation has a handle exactly while it is in flight: that handle.
pub proof fn handle_is_that_in_flight<B, H>(op: OwnedOp<B, H>, handle: H)
    ensures
        op.handle() == Some(handle) <==> op.state == OpState::<B, H>::InFlight(handle),
{
}

/// A read through a borrowed buffer is submitted exactly if none is in flight. It has room for at
/// least one byte, and else for as many as the caller has. The task is registered before, so that
/// the completion wakes it.
pub proof fn idle_reader_submits<H, T>(
    state: FuturesIoState<H, T>,
    len: usize,
    source: SourceView,
    waker: Waker,
    ticker: usize,
    source_after: SourceView,
    begin: IoBegin<usize>,
)
    requires
        source.wf(),
        state.begins_read(len, source, waker, ticker, source_after, begin),
    ensures
        begin is Submit <==> state.read is Idle,
        match begin {
            IoBegin::Submit { payload, parked } => {
                &&& payload > 0
                &&& len > 0 ==> payload == len
                &&& len == 0 ==> payload == 1
                &&& leaves_to_do(source, Side::Read, source_after, parked)
                &&& next_event_wakes(source_after, Side::Read, waker)
                &&& source.wake_mode == WakeMode::Edge ==> notices_from_now_on(
                    source_after,
                    Side::Read,
                )
                &&& source_after.write == source.write
            },
            IoBegin::InFlight => source_after == source,
        },
{
    if let IoBegin::Submit { payload: _, parked } = begin {
        lemma_armed(source, Side::Read, waker, ticker, source_after, parked);
    }
}

/// A write through a borrowed buffer is submitted exactly if none is in flight, with all the bytes
/// that the caller gave. The task is registered before, so that the completion wakes it.
pub proof fn idle_writer_submits<H, T>(
    state: FuturesIoState<H, T>,
    data: Seq<u8>,
    source: SourceView,
    waker: Waker,
    ticker: usize,
    source_after: SourceView,
    begin: IoBegin<Vec<u8>>,
)
    requires
        source.wf(),
        state.begins_write(data, source, waker, ticker, source_after, begin),
    ensures
        begin is Submit <==> state.write is Idle,
        match begin {
            IoBegin::Submit { payload, parked } => {
                &&& payload@.len() == data.len()
                &&& forall|i: int| 0 <= i < data.len() ==> #[trigger] payload@[i] == data[i]
                &&& leaves_to_do(source, Side::Write, source_after, parked)
                &&& next_event_wakes(source_after, Side::Write, waker)
                &&& source.wake_mode == WakeMode::Edge ==> notices_from_now_on(
                    source_after,
                    Side::Write,
                )
                &&& source_after.read == source.read
            },
            IoBegin::InFlight => source_after == source,
        },
{
    if let IoBegin::Submit { payload: _, parked } = begin {
        lemma_armed(source, Side::Write, waker, ticker, source_after, parked);
    }
}

/// `after` and `count` are what a read of `bytes` bytes, the first of `filled`, makes of `buf`: as
/// many as fit are at its front, and the rest is as it was.
pub open spec fn takes_the_first(
    buf: Seq<u8>,
    filled: Seq<u8>,
    bytes: usize,
    after: Seq<u8>,
    count: usize,
) -> bool {
    &&& count <= bytes
    &&& count <= buf.len()
    &&& count == bytes || count == buf.len()
    &&& after.len() == buf.len()
    &&& forall|i: int| 0 <= i < count ==> #[trigger] after[i] == filled[i]
    &&& forall|i: int| count <= i < buf.len() ==> #[trigger] after[i] == buf[i]
}

/// A read that ended gives the caller the bytes that were read, as far as there is room, and says
/// how many; one that failed leaves the buffer alone, and at the end of the pipe is a read of
/// nothing.
pub proof fn ended_read_fills_the_front(
    raw: io::Result<usize>,
    filled: Seq<u8>,
    buf: Seq<u8>,
    buf_after: Seq<u8>,
    result: io::Result<usize>,
)
    requires
        raw matches Ok(bytes) ==> bytes <= filled.len(),
        buf.len() <= usize::MAX,
        finishes_read(raw, filled, buf, buf_after, result),
    ensures
        match raw {
            Ok(bytes) => result matches Ok(count) && takes_the_first(
                buf,
                filled,
                bytes,
                buf_after,
                count,
            ),
            Err(error) => {
                let code = os_code(error);
                &&& buf_after == buf
                &&& if code == Some(ERROR_BROKEN_PIPE) || code == Some(ERROR_OPERATION_ABORTED)
                    || code == Some(ERROR_HANDLE_EOF) {
                    result == Ok::<usize, io::Error>(0)
                } else {
                    result == Err::<usize, io::Error>(error)
                }
            },
        },
{
}

/// What was submitted as a read is in flight afterwards, with its handle kept, or it has ended:
/// then the caller has the bytes or the error, and nothing is in flight that was not before. A
/// write and a flush in progress are left alone.
pub proof fn submitted_read_ends_or_is_in_flight<H, T>(
    state: FuturesIoState<H, T>,
    submission: Submission<Vec<u8>, H>,
    buf: Seq<u8>,
    after: FuturesIoState<H, T>,
    buf_after: Seq<u8>,
    result: Option<io::Result<usize>>,
)
    requires
        submission matches Submission::Complete { bytes, buf: filled } ==> bytes <= filled@.len(),
        buf.len() <= usize::MAX,
        state.submits_read(submission, buf, after, buf_after, result),
    ensures
        after.write == state.write,
        after.flush == state.flush,
        match submission {
            Submission::Pending(handle) => {
                &&& result is None
                &&& after.read == DirState::Pending(handle)
                &&& buf_after == buf
            },
            Submission::Complete { bytes, buf: filled } => {
                &&& after.read == state.read
                &&& result matches Some(Ok(count)) && takes_the_first(
                    buf,
                    filled@,
                    bytes,
                    buf_after,
                    count,
                )
            },
            Submission::Failed { error, buf: _ } => {
                let code = os_code(error);
                &&& after.read == state.read
                &&& buf_after == buf
                &&& if code == Some(ERROR_BROKEN_PIPE) || code == Some(ERROR_OPERATION_ABORTED)
                    || code == Some(ERROR_HANDLE_EOF) {
                    result == Some(Ok::<usize, io::Error>(0))
                } else {
                    result == Some(Err::<usize, io::Error>(error))
                }
            },
        },
{
}

/// What was submitted as a write is in flight afterwards, with its handle kept, or it has ended:
/// then the caller has the number of bytes or the error, unchanged, and nothing is in flight that
/// was not before. A read and a flush in progress are left alone.
pub proof fn submitted_write_ends_or_is_in_flight<H, T>(
    state: FuturesIoState<H, T>,
    submission: Submission<Vec<u8>, H>,
    after: FuturesIoState<H, T>,
    result: Option<io::Result<usize>>,
)
    requires
        state.submits_write(submission, after, result),
    ensures
        after.read == state.read,
        after.flush == state.flush,
        match submission {
            Submission::Pending(handle) => {
                &&& result is None
                &&& after.write == DirState::Pending(handle)
            },
            Submission::Complete { bytes, buf: _ } => {
                &&& after.write == state.write
                &&& result == Some(Ok::<usize, io::Error>(bytes))
            },
            Submission::Failed { error, buf: _ } => {
                &&& after.write == state.write
                &&& result == Some(Err::<usize, io::Error>(error))
            },
        },
{
}

/// A poll with an operation in flight takes its handle exactly if the operation has ended, and the
/// direction is idle then; otherwise the state stays, the task is registered so that it is woken
/// by the next event, and in edge mode no event from then on is missed. The other direction and
/// the flush are left alone.
pub proof fn pending_direction_waits_for_its_end<H, T>(
    state: FuturesIoState<H, T>,
    side: Side,
    complete: bool,
    source: SourceView,
    waker: Waker,
    ticker: usize,
    after: FuturesIoState<H, T>,
    source_after: SourceView,
    wait: IoWait<H>,
)
    requires
        source.wf(),
        state.waits(side, complete, source, waker, ticker, after, source_after, wait),
    ensures
        wait is Take <==> complete,
        after.flush == state.flush,
        side == Side::Read ==> after.write == state.write,
        side == Side::Write ==> after.read == state.read,
        match wait {
            IoWait::Take(handle) => {
                &&& side == Side::Read ==> state.read == DirState::Pending(handle)
                    && after.read is Idle
                &&& side == Side::Write ==> state.write == DirState::Pending(handle)
                    && after.write is Idle
                &&& source_after == source
            },
            IoWait::Recheck(parked) => {
                &&& after == state
                &&& leaves_to_do(source, side, source_after, parked)
                &&& next_event_wakes(source_after, side, waker)
                &&& source.wake_mode == WakeMode::Edge ==> notices_from_now_on(source_after, side)
                &&& source_after.side(opposite(side)) == source.side(opposite(side))
            },
        },
{
    if let IoWait::Recheck(parked) = wait {
        lemma_armed(source, side, waker, ticker, source_after, parked);
    }
}

/// The second look takes the handle exactly if the operation has ended meanwhile, and the
/// direction is idle then; otherwise nothing changes. The other direction and the flush are left
/// alone.
pub proof fn second_look_takes_what_has_ended<H, T>(
    state: FuturesIoState<H, T>,
    side: Side,
    complete: bool,
    after: FuturesIoState<H, T>,
    handle: Option<H>,
)
    requires
        state.rechecks(side, complete, after, handle),
    ensures
        handle is Some <==> complete,
        after.flush == state.flush,
        side == Side::Read ==> after.write == state.write,
        side == Side::Write ==> after.read == state.read,
        match handle {
            Some(h) => {
                &&& side == Side::Read ==> state.read == DirState::Pending(h) && after.read is Idle
                &&& side == Side::Write ==> state.write == DirState::Pending(h)
                    && after.write is Idle
            },
            None => after == state,
        },
{
}

/// Of two flushes the first is noted and the second handed back, until the first has ended: then
/// another can start, and the handle of a write that was in flight is handed out. Reads are left
/// alone throughout.
pub proof fn one_flush_at_a_time<H, T>(
    state: FuturesIoState<H, T>,
    first: T,
    second: T,
    started: FuturesIoState<H, T>,
    started_refused: Option<T>,
    again: FuturesIoState<H, T>,
    again_refused: Option<T>,
    ended: FuturesIoState<H, T>,
    write: Option<H>,
)
    requires
        state.starts_flush(first, started, started_refused),
        started.starts_flush(second, again, again_refused),
        again.ends_flush(ended, write),
    ensures
        started_refused == match state.flush {
            Some(_) => Some(first),
            None => None::<T>,
        },
        started.flush == match state.flush {
            Some(task) => Some(task),
            None => Some(first),
        },
        started.read == state.read,
        started.write == state.write,
        again_refused == Some(second),
        again == started,
        ended.flush is None,
        ended.write is Idle,
        ended.read == state.read,
        match write {
            Some(handle) => state.write == DirState::Pending(handle),
            None => state.write is Idle,
        },
{
}

/// A direction has a handle exactly while an operation of it is in flight: that handle.
pub proof fn direction_holds_its_handle<H, T>(state: FuturesIoState<H, T>, handle: H)
    ensures
        state.handle(Side::Read) == Some(handle) <==> state.read == DirState::Pending(handle),
        state.handle(Side::Write) == Some(handle) <==> state.write == DirState::Pending(handle),
{
}

} // verus!
