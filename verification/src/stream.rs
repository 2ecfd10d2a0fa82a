//! A connected named pipe.

use crate::direction::WakeMode;
use crate::listener::SecurityAttributes;
use crate::named_pipe::{ConnectOptionsView, NamedPipeConnectOptions};
use crate::operation::{arm_source, OpKind, OpState, OwnedOp, Submission};
use crate::os_error::{read_of_error, OsFailure};
use crate::reactor::{Reactor, ReactorView};
use crate::registration::{PollerOp, Registration};
use crate::source::{Parked, Side, Source, SourceView};
use crate::wide::nul_terminated;
use crate::win32::OPEN_EXISTING;
use std::io;
use std::task::Waker;
use vstd::prelude::*;
use vstd::slice::slice_to_vec;

verus! {

/// A direction of a pipe that is read or written through borrowed buffers.
#[derive(Debug)]
pub enum DirState<H> {
    /// No operation is in flight.
    Idle,
    /// An operation is in flight, on a buffer of its own.
    Pending(H),
}

/// How a poll of a direction starts.
#[derive(Debug)]
pub enum IoBegin<P> {
    /// Submit an operation; the task is parked.
    Submit { payload: P, parked: Parked },
    /// An operation is in flight already.
    InFlight,
}

/// How a poll goes on with an operation in flight.
#[derive(Debug)]
pub enum IoWait<H> {
    /// The operation has ended: take its result from the handle.
    Take(H),
    /// The task is parked. The operation may have ended meanwhile: look once more.
    Recheck(Parked),
}

/// The state of a pipe that is read and written through borrowed buffers. `H` is the driver's
/// handle of an operation in flight, `T` that of a flush.
#[derive(Debug)]
pub struct FuturesIoState<H, T> {
    /// The reading direction.
    pub read: DirState<H>,
    /// The writing direction.
    pub write: DirState<H>,
    /// The flush in progress.
    pub flush: Option<T>,
}

/// The first `n` bytes of `dst` replaced by those of `src`.
pub open spec fn overwritten(dst: Seq<u8>, src: Seq<u8>, n: int) -> Seq<u8> {
    src.take(n) + dst.skip(n)
}

/// The smaller of two numbers.
pub open spec fn smaller(a: int, b: int) -> int {
    if a < b {
        a
    } else {
        b
    }
}

/// `buf_after` and `result` are what a read that has ended makes of the caller's buffer: what was
/// read is copied, as far as there is room.
pub open spec fn finishes_read(
    raw: io::Result<usize>,
    filled: Seq<u8>,
    buf: Seq<u8>,
    buf_after: Seq<u8>,
    result: io::Result<usize>,
) -> bool {
    match raw {
        Ok(bytes) => {
            let copied = smaller(bytes as int, buf.len() as int);
            &&& result == Ok::<usize, io::Error>(copied as usize)
            &&& buf_after == overwritten(buf, filled, copied)
        },
        Err(error) => {
            &&& result == read_of_error(error)
            &&& buf_after == buf
        },
    }
}

/// Copies the bytes that were read, as far as the caller has room. Returns how many were copied.
pub fn copy_out(bytes: usize, filled: &Vec<u8>, buf: &mut [u8]) -> (copied: usize)
    requires
        bytes <= filled.len(),
    ensures
        copied == smaller(bytes as int, old(buf)@.len() as int),
        final(buf)@ == overwritten(old(buf)@, filled@, copied as int),
{
    let copied: usize = if bytes < buf.len() {
        bytes
    } else {
        buf.len()
    };
    let mut i: usize = 0;
    while i < copied
        invariant
            i <= copied,
            copied <= filled.len(),
            copied <= old(buf)@.len(),
            buf@ == overwritten(old(buf)@, filled@, i as int),
        decreases copied - i,
    {
        buf[i] = filled[i];
        i += 1;
        assert(buf@ =~= overwritten(old(buf)@, filled@, i as int));
    }
    copied
}

impl<H, T> FuturesIoState<H, T> {
    /// The direction on `side`.
    pub open spec fn dir(self, side: Side) -> DirState<H> {
        match side {
            Side::Read => self.read,
            Side::Write => self.write,
        }
    }

    /// The state with `dir` on `side`.
    pub open spec fn with(self, side: Side, dir: DirState<H>) -> FuturesIoState<H, T> {
        match side {
            Side::Read => FuturesIoState { read: dir, ..self },
            Side::Write => FuturesIoState { write: dir, ..self },
        }
    }

    /// The handle of the operation in flight on `side`.
    pub open spec fn handle(self, side: Side) -> Option<H> {
        match self.dir(side) {
            DirState::Pending(handle) => Some(handle),
            DirState::Idle => None,
        }
    }

    /// `begin` and `source_after` are how a poll for a read of at most `len` bytes starts: where
    /// none is in flight one is to be submitted, with the source armed.
    pub open spec fn begins_read(
        self,
        len: usize,
        source: SourceView,
        waker: Waker,
        ticker: usize,
        source_after: SourceView,
        begin: IoBegin<usize>,
    ) -> bool {
        match begin {
            IoBegin::Submit { payload, parked } => {
                &&& self.read is Idle
                &&& payload == if len == 0 {
                    1
                } else {
                    len
                }
                &&& source_after.armed(Side::Read)
                &&& source.arms(Side::Read, waker, ticker, source_after, parked)
            },
            IoBegin::InFlight => self.read is Pending && source_after == source,
        }
    }

    /// `begin` and `source_after` are how a poll for a write of `data` starts: where none is in
    /// flight one is to be submitted, with the source armed.
    pub open spec fn begins_write(
        self,
        data: Seq<u8>,
        source: SourceView,
        waker: Waker,
        ticker: usize,
        source_after: SourceView,
        begin: IoBegin<Vec<u8>>,
    ) -> bool {
        match begin {
            IoBegin::Submit { payload, parked } => {
                &&& self.write is Idle
                &&& payload@ == data
                &&& source_after.armed(Side::Write)
                &&& source.arms(Side::Write, waker, ticker, source_after, parked)
            },
            IoBegin::InFlight => self.write is Pending && source_after == source,
        }
    }

    /// `after`, `buf_after` and `result` are what the outcome of submitting a read makes of the
    /// state and of the caller's buffer.
    pub open spec fn submits_read(
        self,
        submission: Submission<Vec<u8>, H>,
        buf: Seq<u8>,
        after: FuturesIoState<H, T>,
        buf_after: Seq<u8>,
        result: Option<io::Result<usize>>,
    ) -> bool {
        match submission {
            Submission::Complete { bytes, buf: filled } => {
                let copied = smaller(bytes as int, buf.len() as int);
                &&& result == Some(Ok::<usize, io::Error>(copied as usize))
                &&& buf_after == overwritten(buf, filled@, copied)
                &&& after == self
            },
            Submission::Pending(handle) => {
                &&& result is None
                &&& buf_after == buf
                &&& after == self.with(Side::Read, DirState::Pending(handle))
            },
            Submission::Failed { error, buf: _ } => {
                &&& result == Some(read_of_error(error))
                &&& buf_after == buf
                &&& after == self
            },
        }
    }

    /// `after` and `result` are what the outcome of submitting a write makes of the state.
    pub open spec fn submits_write(
        self,
        submission: Submission<Vec<u8>, H>,
        after: FuturesIoState<H, T>,
        result: Option<io::Result<usize>>,
    ) -> bool {
        match submission {
            Submission::Complete { bytes, buf: _ } => {
                &&& result == Some(Ok::<usize, io::Error>(bytes))
                &&& after == self
            },
            Submission::Pending(handle) => {
                &&& result is None
                &&& after == self.with(Side::Write, DirState::Pending(handle))
            },
            Submission::Failed { error, buf: _ } => {
                &&& result == Some(Err::<usize, io::Error>(error))
                &&& after == self
            },
        }
    }

    /// `after`, `source_after` and `wait` are how a poll goes on while an operation is in flight on
    /// `side`.
    pub open spec fn waits(
        self,
        side: Side,
        complete: bool,
        source: SourceView,
        waker: Waker,
        ticker: usize,
        after: FuturesIoState<H, T>,
        source_after: SourceView,
        wait: IoWait<H>,
    ) -> bool {
        match wait {
            IoWait::Take(handle) => {
                &&& complete
                &&& self.dir(side) == DirState::Pending(handle)
                &&& after == self.with(side, DirState::Idle)
                &&& source_after == source
            },
            IoWait::Recheck(parked) => {
                &&& !complete
                &&& after == self
                &&& source_after.armed(side)
                &&& source.arms(side, waker, ticker, source_after, parked)
            },
        }
    }

    /// `after` and `handle` are what the second look at an operation in flight on `side` makes of
    /// the state.
    pub open spec fn rechecks(
        self,
        side: Side,
        complete: bool,
        after: FuturesIoState<H, T>,
        handle: Option<H>,
    ) -> bool {
        match handle {
            Some(h) => {
                &&& complete
                &&& self.dir(side) == DirState::Pending(h)
                &&& after == self.with(side, DirState::Idle)
            },
            None => !complete && after == self,
        }
    }

    /// `after` and `refused` are what noting that `task` was started makes of the state.
    pub open spec fn starts_flush(
        self,
        task: T,
        after: FuturesIoState<H, T>,
        refused: Option<T>,
    ) -> bool {
        match self.flush {
            Some(_) => refused == Some(task) && after == self,
            None => {
                &&& refused is None
                &&& after == (FuturesIoState { flush: Some(task), ..self })
            },
        }
    }

    /// `after` and `write` are what the end of a flush makes of the state.
    pub open spec fn ends_flush(self, after: FuturesIoState<H, T>, write: Option<H>) -> bool {
        &&& write == self.handle(Side::Write)
        &&& after == (FuturesIoState::<H, T> {
            read: self.read,
            write: DirState::Idle,
            flush: None,
        })
    }

    /// Nothing is in flight.
    pub fn new() -> (state: FuturesIoState<H, T>)
        ensures
            state == (FuturesIoState::<H, T> {
                read: DirState::Idle,
                write: DirState::Idle,
                flush: None,
            }),
    {
        FuturesIoState { read: DirState::Idle, write: DirState::Idle, flush: None }
    }

    /// Starts a poll for a read of at most `len` bytes. If no read is in flight, the task is
    /// parked, and a read is to be submitted that has room for as many bytes as the payload says,
    /// for one at least.
    pub fn read_begin(&self, len: usize, source: &mut Source, waker: Waker, ticker: usize) -> (begin:
        IoBegin<usize>)
        requires
            old(source)@.wf(),
        ensures
            final(source)@.wf(),
            self.begins_read(len, old(source)@, waker, ticker, final(source)@, begin),
    {
        match &self.read {
            DirState::Idle => {
                let parked = arm_source(source, Side::Read, waker, ticker);
                let payload: usize = if len == 0 {
                    1
                } else {
                    len
                };
                IoBegin::Submit { payload, parked }
            },
            DirState::Pending(_) => IoBegin::InFlight,
        }
    }

    /// Takes the outcome of submitting a read. If the read ended at once, what it filled is copied
    /// to `buf`, as far as there is room, and the result of the poll is returned.
    pub fn read_submitted(&mut self, submission: Submission<Vec<u8>, H>, buf: &mut [u8]) -> (result:
        Option<io::Result<usize>>)
        requires
            old(self).read is Idle,
            submission matches Submission::Complete { bytes, buf: filled } ==> bytes
                <= filled.len(),
        ensures
            old(self).submits_read(submission, old(buf)@, *final(self), final(buf)@, result),
    {
        match submission {
            Submission::Complete { bytes, buf: filled } => Some(Ok(copy_out(bytes, &filled, buf))),
            Submission::Pending(handle) => {
                self.read = DirState::Pending(handle);
                None
            },
            Submission::Failed { error, buf: _ } => Some(OsFailure::new(error).read_result()),
        }
    }

    /// Makes the result of a poll of that of a read that was in flight, whose buffer was `filled`:
    /// what was read is copied to `buf`, as far as there is room.
    pub fn read_finish(raw: io::Result<usize>, filled: Vec<u8>, buf: &mut [u8]) -> (result: io::Result<
        usize,
    >)
        requires
            raw matches Ok(bytes) ==> bytes <= filled.len(),
        ensures
            finishes_read(raw, filled@, old(buf)@, final(buf)@, result),
    {
        match raw {
            Ok(bytes) => Ok(copy_out(bytes, &filled, buf)),
            Err(error) => OsFailure::new(error).read_result(),
        }
    }

    /// Starts a poll for a write of `data`. If no write is in flight, the task is parked, and a
    /// write of the payload, a copy of `data`, is to be submitted.
    pub fn write_begin(&self, data: &[u8], source: &mut Source, waker: Waker, ticker: usize) -> (begin:
        IoBegin<Vec<u8>>)
        requires
            old(source)@.wf(),
        ensures
            final(source)@.wf(),
            self.begins_write(data@, old(source)@, waker, ticker, final(source)@, begin),
    {
        match &self.write {
            DirState::Idle => {
                let parked = arm_source(source, Side::Write, waker, ticker);
                IoBegin::Submit { payload: slice_to_vec(data), parked }
            },
            DirState::Pending(_) => IoBegin::InFlight,
        }
    }

    /// Takes the outcome of submitting a write. If the write ended at once, the result of the
    /// poll is returned.
    pub fn write_submitted(&mut self, submission: Submission<Vec<u8>, H>) -> (result: Option<
        io::Result<usize>,
    >)
        requires
            old(self).write is Idle,
        ensures
            old(self).submits_write(submission, *final(self), result),
    {
        match submission {
            Submission::Complete { bytes, buf: _ } => Some(Ok(bytes)),
            Submission::Pending(handle) => {
                self.write = DirState::Pending(handle);
                None
            },
            Submission::Failed { error, buf: _ } => Some(Err(error)),
        }
    }

    /// Makes the result of a poll of that of a write that was in flight: it is the same. The end of
    /// the pipe is an error to a writer.
    pub fn write_finish(raw: io::Result<usize>) -> (result: io::Result<usize>)
        ensures
            result == raw,
    {
        raw
    }

    /// Returns the handle of the operation in flight on `side`.
    pub fn in_flight(&self, side: Side) -> (handle: Option<&H>)
        ensures
            match handle {
                Some(h) => self.handle(side) == Some(*h),
                None => self.handle(side) is None,
            },
    {
        let dir = match side {
            Side::Read => &self.read,
            Side::Write => &self.write,
        };
        match dir {
            DirState::Pending(handle) => Some(handle),
            DirState::Idle => None,
        }
    }

    /// Ends the operation in flight on `side`, if there is one: the direction is idle again, and
    /// the handle is returned.
    fn take(&mut self, side: Side) -> (handle: Option<H>)
        ensures
            handle == old(self).handle(side),
            *final(self) == old(self).with(side, DirState::Idle),
    {
        let mut dir = DirState::Idle;
        match side {
            Side::Read => std::mem::swap(&mut self.read, &mut dir),
            Side::Write => std::mem::swap(&mut self.write, &mut dir),
        }
        match dir {
            DirState::Pending(handle) => Some(handle),
            DirState::Idle => None,
        }
    }

    /// Goes on with a poll while an operation is in flight on `side`. `complete` says whether it
    /// has ended. If it has not, deliveries that nobody consumed are dropped and the task is
    /// parked.
    pub fn wait(
        &mut self,
        side: Side,
        complete: bool,
        source: &mut Source,
        waker: Waker,
        ticker: usize,
    ) -> (wait: IoWait<H>)
        requires
            old(self).dir(side) is Pending,
            old(source)@.wf(),
        ensures
            final(source)@.wf(),
            old(self).waits(
                side,
                complete,
                old(source)@,
                waker,
                ticker,
                *final(self),
                final(source)@,
                wait,
            ),
    {
        if complete {
            if let Some(handle) = self.take(side) {
                return IoWait::Take(handle);
            }
        }
        IoWait::Recheck(arm_source(source, side, waker, ticker))
    }

    /// Looks once more at an operation in flight on `side`, after the task was parked. If it has
    /// ended, its handle is returned and the direction is idle again; if not, the poll is pending.
    pub fn rechecked(&mut self, side: Side, complete: bool) -> (handle: Option<H>)
        requires
            old(self).dir(side) is Pending,
        ensures
            old(self).rechecks(side, complete, *final(self), handle),
    {
        if complete {
            self.take(side)
        } else {
            None
        }
    }

    /// Returns whether a flush is in progress. If none is, a poll for a flush starts one.
    pub fn flushing(&self) -> (flushing: bool)
        ensures
            flushing == (self.flush is Some),
    {
        self.flush.is_some()
    }

    /// Notes the flush that was started, unless one is in progress: that one stays, and the other
    /// is handed back.
    pub fn flush_started(&mut self, task: T) -> (refused: Option<T>)
        ensures
            old(self).starts_flush(task, *final(self), refused),
    {
        if self.flush.is_some() {
            Some(task)
        } else {
            self.flush = Some(task);
            None
        }
    }

    /// Gives access to the flush in progress.
    pub fn flush_task(&mut self) -> (task: Option<&mut T>)
        ensures
            match task {
                Some(t) => {
                    &&& old(self).flush == Some(*t)
                    &&& *final(self) == (FuturesIoState { flush: Some(*final(t)), ..*old(self) })
                },
                None => old(self).flush is None && *final(self) == *old(self),
            },
    {
        self.flush.as_mut()
    }

    /// Notes that the flush has ended. The writing direction is idle afterwards: the handle of a
    /// write that was in flight is returned, to be cancelled.
    pub fn flush_done(&mut self) -> (write: Option<H>)
        ensures
            old(self).ends_flush(*final(self), write),
    {
        self.flush = None;
        self.take(Side::Write)
    }
}

/// A request to open the client's end of a pipe.
#[derive(Debug)]
pub struct OpenPipe {
    /// The name of the pipe, with a terminating zero.
    pub name: Vec<u16>,
    /// The access asked for.
    pub desired_access: u32,
    /// What is shared with others: nothing.
    pub share_mode: u32,
    /// The security attributes, if they differ from the default.
    pub security: Option<SecurityAttributes<'static>>,
    /// What to do where the pipe does or does not exist.
    pub creation_disposition: u32,
    /// The file flags.
    pub flags: u32,
}

/// A connected named pipe.
#[derive(Debug)]
pub struct NamedPipeStream<H, T> {
    /// The key of the pipe's source.
    pub key: usize,
    /// The state of reads and writes through borrowed buffers.
    pub futures_io: FuturesIoState<H, T>,
}

impl<H, T> NamedPipeStream<H, T> {
    /// Makes a stream of a pipe whose handle `file` supports overlapped operations and is attached
    /// to the completion port. Its source is registered in edge mode, since each completion is
    /// delivered only once. The command that is returned registers it with the poller.
    pub fn from_overlapped_handle(reactor: &mut Reactor, file: usize) -> (made: (
        NamedPipeStream<H, T>,
        PollerOp,
    ))
        requires
            old(reactor).wf(),
        ensures
            final(reactor).wf(),
            !old(reactor)@.sources.contains_key(made.0.key),
            final(reactor)@ == old(reactor)@.with_source(
                Registration::File(file),
                made.0.key,
                WakeMode::Edge,
            ),
            made.0.futures_io == (FuturesIoState::<H, T> {
                read: DirState::Idle,
                write: DirState::Idle,
                flush: None,
            }),
            made.1 == (PollerOp::SetUserKey { file, key: made.0.key }),
    {
        let (key, op) = reactor.insert_io_edge(Registration::new_file(file));
        (NamedPipeStream { key, futures_io: FuturesIoState::new() }, op)
    }

    /// Takes the pipe's source off the reactor, when the stream is dropped. The command that is
    /// returned takes it off the poller.
    pub fn close(self, reactor: &mut Reactor) -> (op: PollerOp)
        requires
            old(reactor).wf(),
            old(reactor)@.sources.contains_key(self.key),
        ensures
            final(reactor).wf(),
            final(reactor)@ == (ReactorView {
                sources: old(reactor)@.sources.remove(self.key),
                ..old(reactor)@
            }),
            op == old(reactor)@.sources[self.key].registration.delete_op(),
    {
        reactor.remove_io(self.key)
    }

    /// Reads into a buffer that the operation owns until it has ended. Nothing read means that the
    /// end of the pipe was reached.
    pub fn read<B, I>(&self, buf: B) -> (op: OwnedOp<B, I>)
        ensures
            op == (OwnedOp::<B, I> { kind: OpKind::Read, state: OpState::Start(buf) }),
    {
        OwnedOp::new(OpKind::Read, buf)
    }

    /// Writes from a buffer that the operation owns until it has ended.
    pub fn write<B, I>(&self, buf: B) -> (op: OwnedOp<B, I>)
        ensures
            op == (OwnedOp::<B, I> { kind: OpKind::Write, state: OpState::Start(buf) }),
    {
        OwnedOp::new(OpKind::Write, buf)
    }

    /// Waits for a client, on the server's end of the pipe.
    pub fn connect_client<I>(&self) -> (op: OwnedOp<(), I>)
        ensures
            op == (OwnedOp::<(), I> { kind: OpKind::Connect, state: OpState::Start(()) }),
    {
        OwnedOp::new(OpKind::Connect, ())
    }

    /// Returns the request for the client's end of the pipe `addr`, with the default options.
    pub fn connect(addr: Vec<u16>) -> (request: OpenPipe)
        ensures
            opens(request, addr@, ConnectOptionsView::default_options()),
    {
        NamedPipeStream::<H, T>::connect_with_options(addr, NamedPipeConnectOptions::new())
    }

    /// Returns the request for the client's end of the pipe `addr`.
    pub fn connect_with_options(addr: Vec<u16>, options: NamedPipeConnectOptions) -> (request:
        OpenPipe)
        ensures
            opens(request, addr@, options@),
    {
        let security = if options.get_inherit_handle() {
            Some(SecurityAttributes { descriptor: None, inherit_handle: true })
        } else {
            None
        };
        OpenPipe {
            name: nul_terminated(addr),
            desired_access: options.desired_access(),
            share_mode: 0,
            security,
            creation_disposition: OPEN_EXISTING,
            flags: options.custom_flags(),
        }
    }
}

/// `request` asks for the client's end of the pipe `addr`, as `options` say.
pub open spec fn opens(request: OpenPipe, addr: Seq<u16>, options: ConnectOptionsView) -> bool {
    &&& request.name@ == addr.push(0)
    &&& request.desired_access == options.desired_access()
    &&& request.share_mode == 0
    &&& request.security == if options.inherit_handle {
        Some(SecurityAttributes { descriptor: None, inherit_handle: true })
    } else {
        None
    }
    &&& request.creation_disposition == OPEN_EXISTING
    &&& request.flags == options.flags()
}

} // verus!
