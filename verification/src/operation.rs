//! Operations on a named pipe.
//!
//! An operation on a pipe is submitted to the operating system together with its buffer, and
//! either ends at once or is in flight until its completion is delivered to the source of the
//! pipe. Whoever submits parks its task on the source first: a completion is delivered only once,
//! and one that comes before the snapshot was taken would never be noticed. So the buffer of an
//! operation is handed out only by the functions that park the task.

use crate::os_error::{read_of_error, OsFailure};
use crate::source::{Parked, PollReady, Side, Source, SourceView};
use std::io;
use std::task::Waker;
use vstd::prelude::*;

verus! {

/// What became of an operation that was submitted. `H` is the driver's handle of an operation in
/// flight.
#[derive(Debug)]
pub enum Submission<B, H> {
    /// It ended at once; no completion follows.
    Complete { bytes: usize, buf: B },
    /// It is in flight; its completion follows.
    Pending(H),
    /// It was rejected; no completion follows.
    Failed { error: io::Error, buf: B },
}

/// An operation that owns its buffer.
#[derive(Debug, Copy, Clone, PartialEq, Eq, Structural)]
pub enum OpKind {
    /// Reading into the buffer.
    Read,
    /// Writing from the buffer.
    Write,
    /// Waiting for a client, on the server's end of a pipe.
    Connect,
}

/// How far an operation has come.
#[derive(Debug)]
pub enum OpState<B, H> {
    /// Not submitted yet.
    Start(B),
    /// The buffer was handed out to be submitted.
    Submitting,
    /// In flight.
    InFlight(H),
    /// Ended.
    Done,
}

/// An operation on a pipe, from before it is submitted until it has ended.
#[derive(Debug)]
pub struct OwnedOp<B, H> {
    /// What is done.
    pub kind: OpKind,
    /// How far it has come.
    pub state: OpState<B, H>,
}

/// The result of an operation.
#[derive(Debug)]
pub struct Finished<B> {
    /// The number of bytes transferred, or the error.
    pub result: io::Result<usize>,
    /// The number of bytes at the start of the buffer that a read filled, which is to be noted in
    /// the buffer.
    pub filled: Option<usize>,
    /// The buffer that was submitted.
    pub buf: B,
}

/// One step of the wait for an operation in flight.
#[derive(Debug)]
pub enum OpStep {
    /// The operation has ended.
    Complete,
    /// Some completion was delivered, perhaps that of this operation: look again.
    Again,
    /// The task is parked until the next completion.
    Pending(Parked),
}

/// One step of an [`OwnedOp`] in flight.
#[derive(Debug)]
pub enum OwnedStep<H> {
    /// The operation has ended: take its result from the handle.
    Take(H),
    /// Some completion was delivered: look again.
    Again,
    /// The task is parked until the next completion.
    Pending(Parked),
}

impl OpKind {
    /// The side of the source that the completion is delivered on.
    pub open spec fn side(self) -> Side {
        match self {
            OpKind::Read => Side::Read,
            OpKind::Write => Side::Write,
            OpKind::Connect => Side::Read,
        }
    }

    /// What the caller gets for the operating system's result: the end of the pipe is a read of
    /// nothing.
    pub open spec fn result(self, raw: io::Result<usize>) -> io::Result<usize> {
        match (self, raw) {
            (OpKind::Read, Err(error)) => read_of_error(error),
            _ => raw,
        }
    }

    /// The number of bytes that the operation put into the buffer, where there is one to note.
    pub open spec fn filled(self, raw: io::Result<usize>) -> Option<usize> {
        match (self, self.result(raw)) {
            (OpKind::Read, Ok(bytes)) => Some(bytes),
            _ => None,
        }
    }

    /// What the caller gets for the operating system's result and the buffer.
    pub open spec fn finished<B>(self, raw: io::Result<usize>, buf: B) -> Finished<B> {
        Finished { result: self.result(raw), filled: self.filled(raw), buf }
    }

    /// Returns the side of the source that the completion is delivered on.
    pub fn completion_side(self) -> (side: Side)
        ensures
            side == self.side(),
    {
        match self {
            OpKind::Read => Side::Read,
            OpKind::Write => Side::Write,
            OpKind::Connect => Side::Read,
        }
    }

    /// Makes the caller's result of the operating system's.
    pub fn finish<B>(self, raw: io::Result<usize>, buf: B) -> (finished: Finished<B>)
        ensures
            finished == self.finished(raw, buf),
    {
        match self {
            OpKind::Read => {
                let result = match raw {
                    Ok(bytes) => Ok(bytes),
                    Err(error) => OsFailure::new(error).read_result(),
                };
                let filled = match result {
                    Ok(bytes) => Some(bytes),
                    Err(_) => None,
                };
                Finished { result, filled, buf }
            },
            OpKind::Write | OpKind::Connect => Finished { result: raw, filled: None, buf },
        }
    }
}

/// `after` and `step` are what one step of the wait for an operation in flight makes of the source:
/// an operation that has ended leaves it alone, a delivery is consumed, and without one the task
/// is registered.
pub open spec fn polls_op(
    complete: bool,
    source: SourceView,
    side: Side,
    waker: Waker,
    ticker: usize,
    after: SourceView,
    step: OpStep,
) -> bool {
    match step {
        OpStep::Complete => complete && after == source,
        OpStep::Again => {
            &&& !complete
            &&& source.ready(side)
            &&& after == source.released(side)
        },
        OpStep::Pending(parked) => {
            &&& !complete
            &&& !source.ready(side)
            &&& after.armed(side)
            &&& source.registers(side, waker, ticker, after, parked)
        },
    }
}

/// One step of the wait for an operation in flight whose completion is delivered on `side`.
/// `complete` says whether the operation has ended.
pub fn poll_op(
    complete: bool,
    source: &mut Source,
    side: Side,
    waker: Waker,
    ticker: usize,
) -> (step: OpStep)
    requires
        old(source)@.wf(),
    ensures
        final(source)@.wf(),
        polls_op(complete, old(source)@, side, waker, ticker, final(source)@, step),
{
    if complete {
        return OpStep::Complete;
    }
    match source.poll_ready(side, waker, ticker) {
        PollReady::Ready => OpStep::Again,
        PollReady::Pending(parked) => OpStep::Pending(parked),
    }
}

/// Parks the task on `side` of the source ahead of a submission; see [`Source::arm`].
pub fn arm_source(source: &mut Source, side: Side, waker: Waker, ticker: usize) -> (parked: Parked)
    requires
        old(source)@.wf(),
    ensures
        final(source)@.wf(),
        final(source)@.armed(side),
        old(source)@.arms(side, waker, ticker, final(source)@, parked),
{
    source.arm(side, waker, ticker)
}

impl<B, H> OwnedOp<B, H> {
    /// The handle of the operation while it is in flight.
    pub open spec fn handle(self) -> Option<H> {
        match self.state {
            OpState::InFlight(handle) => Some(handle),
            _ => None,
        }
    }

    /// `after`, `source_after` and `begun` are what starting the operation makes of it and of the
    /// source: one that was not submitted yet gives its buffer out, with the source armed.
    pub open spec fn begins(
        self,
        source: SourceView,
        waker: Waker,
        ticker: usize,
        after: OwnedOp<B, H>,
        source_after: SourceView,
        begun: Option<(B, Parked)>,
    ) -> bool {
        &&& after.kind == self.kind
        &&& match self.state {
            OpState::Start(buf) => {
                &&& begun matches Some((out, parked)) && out == buf && source.arms(
                    self.kind.side(),
                    waker,
                    ticker,
                    source_after,
                    parked,
                )
                &&& source_after.armed(self.kind.side())
                &&& after.state is Submitting
            },
            _ => {
                &&& begun is None
                &&& after == self
                &&& source_after == source
            },
        }
    }

    /// `after` and `finished` are what the outcome of the submission makes of the operation.
    pub open spec fn submits(
        self,
        submission: Submission<B, H>,
        after: OwnedOp<B, H>,
        finished: Option<Finished<B>>,
    ) -> bool {
        &&& after.kind == self.kind
        &&& match submission {
            Submission::Complete { bytes, buf } => {
                &&& finished == Some(self.kind.finished(Ok(bytes), buf))
                &&& after.state is Done
            },
            Submission::Pending(handle) => {
                &&& finished is None
                &&& after.state == OpState::<B, H>::InFlight(handle)
            },
            Submission::Failed { error, buf } => {
                &&& finished == Some(self.kind.finished(Err(error), buf))
                &&& after.state is Done
            },
        }
    }

    /// `after`, `source_after` and `step` are what one step of the wait makes of the operation and
    /// of the source.
    pub open spec fn steps(
        self,
        complete: bool,
        source: SourceView,
        waker: Waker,
        ticker: usize,
        after: OwnedOp<B, H>,
        source_after: SourceView,
        step: OwnedStep<H>,
    ) -> bool {
        &&& after.kind == self.kind
        &&& match step {
            OwnedStep::Take(handle) => {
                &&& complete
                &&& self.handle() == Some(handle)
                &&& after.state is Done
                &&& source_after == source
            },
            OwnedStep::Again => {
                &&& !complete
                &&& after == self
                &&& source.ready(self.kind.side())
                &&& source_after == source.released(self.kind.side())
            },
            OwnedStep::Pending(parked) => {
                &&& !complete
                &&& after == self
                &&& !source.ready(self.kind.side())
                &&& source_after.armed(self.kind.side())
                &&& source.registers(self.kind.side(), waker, ticker, source_after, parked)
            },
        }
    }

    /// An operation that was not submitted yet.
    pub fn new(kind: OpKind, buf: B) -> (op: OwnedOp<B, H>)
        ensures
            op == (OwnedOp::<B, H> { kind, state: OpState::Start(buf) }),
    {
        OwnedOp { kind, state: OpState::Start(buf) }
    }

    /// Starts the operation: parks the task on the source, then hands the buffer out, to be
    /// submitted next. An operation that was started before is left as it is.
    pub fn begin(&mut self, source: &mut Source, waker: Waker, ticker: usize) -> (begun: Option<
        (B, Parked),
    >)
        requires
            old(source)@.wf(),
        ensures
            final(source)@.wf(),
            old(self).begins(old(source)@, waker, ticker, *final(self), final(source)@, begun),
    {
        let mut state = OpState::Submitting;
        std::mem::swap(&mut self.state, &mut state);
        match state {
            OpState::Start(buf) => {
                let parked = arm_source(source, self.kind.completion_side(), waker, ticker);
                Some((buf, parked))
            },
            other => {
                self.state = other;
                None
            },
        }
    }

    /// Takes the outcome of the submission. If the operation ended at once, its result is
    /// returned.
    pub fn submitted(&mut self, submission: Submission<B, H>) -> (finished: Option<Finished<B>>)
        requires
            old(self).state is Submitting,
        ensures
            old(self).submits(submission, *final(self), finished),
    {
        match submission {
            Submission::Complete { bytes, buf } => {
                self.state = OpState::Done;
                Some(self.kind.finish(Ok(bytes), buf))
            },
            Submission::Pending(handle) => {
                self.state = OpState::InFlight(handle);
                None
            },
            Submission::Failed { error, buf } => {
                self.state = OpState::Done;
                Some(self.kind.finish(Err(error), buf))
            },
        }
    }

    /// Returns the handle of the operation while it is in flight.
    pub fn in_flight(&self) -> (handle: Option<&H>)
        ensures
            match handle {
                Some(h) => self.handle() == Some(*h),
                None => self.handle() is None,
            },
    {
        match &self.state {
            OpState::InFlight(handle) => Some(handle),
            _ => None,
        }
    }

    /// One step of the wait for the operation. `complete` says whether it has ended.
    pub fn poll(&mut self, complete: bool, source: &mut Source, waker: Waker, ticker: usize) -> (step:
        OwnedStep<H>)
        requires
            old(self).state is InFlight,
            old(source)@.wf(),
        ensures
            final(source)@.wf(),
            old(self).steps(
                complete,
                old(source)@,
                waker,
                ticker,
                *final(self),
                final(source)@,
                step,
            ),
    {
        match poll_op(complete, source, self.kind.completion_side(), waker, ticker) {
            OpStep::Complete => {},
            OpStep::Again => {
                return OwnedStep::Again;
            },
            OpStep::Pending(parked) => {
                return OwnedStep::Pending(parked);
            },
        }
        let mut state = OpState::Done;
        std::mem::swap(&mut self.state, &mut state);
        match state {
            OpState::InFlight(handle) => OwnedStep::Take(handle),
            _ => OwnedStep::Again,
        }
    }

    /// Gives the operation up. If it is in flight, its handle is returned, to be cancelled.
    pub fn cancel(self) -> (handle: Option<H>)
        ensures
            handle == self.handle(),
    {
        match self.state {
            OpState::InFlight(handle) => Some(handle),
            _ => None,
        }
    }
}

} // verus!
