//! Named pipes end to end, on a kernel that lives in memory: tasks run until all of them wait,
//! then the reactor runs a round. A wakeup that got lost shows as a round with nothing to wait
//! for.

use async_io::event::Event;
use async_io::listener::{CreatePipe, NamedPipeListener};
use async_io::named_pipe::{
    NamedPipeConnectOptions, NamedPipeOpenOptions, PipeAccess, PipeMode,
};
use async_io::operation::{OwnedOp, OwnedStep, Submission};
use async_io::reactor::{AfterWait, Reactor, WaitOutcome};
use async_io::registration::PollerOp;
use async_io::source::{Parked, Side};
use async_io::stream::{FuturesIoState, IoBegin, IoWait, NamedPipeStream, OpenPipe};
use futures_lite::future::{poll_fn, zip};
use std::cell::RefCell;
use std::collections::{HashMap, VecDeque};
use std::future::Future;
use std::io;
use std::rc::Rc;
use std::sync::atomic::{AtomicBool, Ordering};
use std::sync::Arc;
use std::task::{Context, Poll, Wake, Waker};
use windows_sys::Win32::Foundation as wf;
use windows_sys::Win32::Storage::FileSystem as wsf;
use windows_sys::Win32::System::Pipes as wsp;

// ---------------------------------------------------------------------
// The kernel
// ---------------------------------------------------------------------

/// One end of a pipe instance.
struct End {
    /// The index of the other end, once there is one.
    peer: Option<usize>,
    open: bool,
    /// What the peer wrote, one element per write.
    inbox: VecDeque<Vec<u8>>,
    reads_messages: bool,
    inherit: bool,
    may_read: bool,
    may_write: bool,
    /// The key that completions are tagged with.
    key: Option<usize>,
    /// The name and the creation flags, for servers.
    name: Option<Vec<u16>>,
    access: u32,
    carries_messages: bool,
}

enum Work {
    Read(usize),
    Connect,
}

/// An operation in flight.
struct Op {
    end: usize,
    work: Work,
    result: Option<Result<usize, i32>>,
    buf: Vec<u8>,
}

#[derive(Default)]
struct Kernel {
    ends: Vec<End>,
    ops: HashMap<u64, Op>,
    next_op: u64,
    completions: VecDeque<Event>,
    /// Every other write ends at once; the others complete.
    writes: usize,
}

fn os_error(code: u32) -> io::Error {
    io::Error::from_raw_os_error(code as i32)
}

impl Kernel {
    fn create_pipe(&mut self, request: &CreatePipe<'_>) -> io::Result<usize> {
        assert_eq!(request.name.last(), Some(&0));
        assert_ne!(request.open_mode & wsf::FILE_FLAG_OVERLAPPED, 0);
        let exists = self
            .ends
            .iter()
            .any(|end| end.open && end.name.as_deref() == Some(request.name));
        if exists && request.open_mode & wsf::FILE_FLAG_FIRST_PIPE_INSTANCE != 0 {
            return Err(os_error(wf::ERROR_ACCESS_DENIED));
        }
        let mut inherit = false;
        if let Some(security) = request.security {
            if security.descriptor.is_some_and(|bytes| bytes.first() != Some(&1)) {
                return Err(os_error(wf::ERROR_INVALID_SECURITY_DESCR));
            }
            inherit = security.inherit_handle;
        }
        let access = request.open_mode & wsf::PIPE_ACCESS_DUPLEX;
        self.ends.push(End {
            peer: None,
            open: true,
            inbox: VecDeque::new(),
            reads_messages: request.pipe_mode & wsp::PIPE_READMODE_MESSAGE != 0,
            inherit,
            may_read: access & wsf::PIPE_ACCESS_INBOUND != 0,
            may_write: access & wsf::PIPE_ACCESS_OUTBOUND != 0,
            key: None,
            name: Some(request.name.to_vec()),
            access,
            carries_messages: request.pipe_mode & wsp::PIPE_TYPE_MESSAGE != 0,
        });
        Ok(self.ends.len() - 1)
    }

    fn open_pipe(&mut self, request: &OpenPipe) -> io::Result<usize> {
        assert_ne!(request.flags & wsf::FILE_FLAG_OVERLAPPED, 0);
        assert_eq!(request.creation_disposition, wsf::OPEN_EXISTING);
        assert_eq!(request.share_mode, 0);
        let free = self.ends.iter().position(|end| {
            end.open && end.peer.is_none() && end.name.as_ref() == Some(&request.name)
        });
        let server = match free {
            Some(server) => server,
            None => return Err(os_error(wf::ERROR_FILE_NOT_FOUND)),
        };
        let reads = request.desired_access & wsf::FILE_READ_DATA != 0;
        let writes = request.desired_access & wsf::FILE_WRITE_DATA != 0;
        let access = self.ends[server].access;
        if reads && access & wsf::PIPE_ACCESS_OUTBOUND == 0
            || writes && access & wsf::PIPE_ACCESS_INBOUND == 0
        {
            return Err(os_error(wf::ERROR_ACCESS_DENIED));
        }
        let client = self.ends.len();
        self.ends.push(End {
            peer: Some(server),
            open: true,
            inbox: VecDeque::new(),
            reads_messages: false,
            inherit: request.security.is_some_and(|security| security.inherit_handle),
            may_read: reads,
            may_write: writes,
            key: None,
            name: None,
            access: 0,
            carries_messages: false,
        });
        self.ends[server].peer = Some(client);
        let waiting: Vec<u64> = self
            .ops
            .iter()
            .filter(|(_, op)| op.end == server && matches!(op.work, Work::Connect))
            .map(|(id, _)| *id)
            .collect();
        for id in waiting {
            self.complete(id, Ok(0));
        }
        Ok(client)
    }

    /// Ends an operation in flight and queues its completion.
    fn complete(&mut self, id: u64, result: Result<usize, i32>) {
        let op = self.ops.get_mut(&id).unwrap();
        if op.result.is_some() {
            return;
        }
        op.result = Some(result);
        if let Some(key) = self.ends[op.end].key {
            self.completions.push_back(Event { key, readable: true, writable: false });
        }
    }

    fn in_flight(&mut self, end: usize, work: Work, buf: Vec<u8>) -> u64 {
        let id = self.next_op;
        self.next_op += 1;
        self.ops.insert(id, Op { end, work, result: None, buf });
        id
    }

    /// Takes at most `room` bytes out of the inbox, by messages where the end reads so.
    fn take_inbox(&mut self, end: usize, room: usize) -> Vec<u8> {
        let end = &mut self.ends[end];
        let mut taken = Vec::new();
        while let Some(first) = end.inbox.front_mut() {
            let n = first.len().min(room - taken.len());
            taken.extend(first.drain(..n));
            if first.is_empty() {
                end.inbox.pop_front();
            }
            if end.reads_messages || taken.len() == room {
                break;
            }
        }
        taken
    }

    fn has_data(&self, end: usize) -> bool {
        !self.ends[end].inbox.is_empty()
    }

    fn peer_closed(&self, end: usize) -> bool {
        self.ends[end].peer.is_some_and(|peer| !self.ends[peer].open)
    }

    fn submit_read(&mut self, end: usize, mut buf: Vec<u8>, room: usize) -> Submission<Vec<u8>, u64> {
        assert!(self.ends[end].open && self.ends[end].may_read);
        if room == 0 {
            return Submission::Complete { bytes: 0, buf };
        }
        if self.has_data(end) {
            buf = self.take_inbox(end, room);
            return Submission::Complete { bytes: buf.len(), buf };
        }
        if self.peer_closed(end) {
            return Submission::Failed { error: os_error(wf::ERROR_BROKEN_PIPE), buf };
        }
        Submission::Pending(self.in_flight(end, Work::Read(room), buf))
    }

    fn submit_write(&mut self, end: usize, buf: Vec<u8>) -> Submission<Vec<u8>, u64> {
        assert!(self.ends[end].open && self.ends[end].may_write);
        if self.peer_closed(end) {
            return Submission::Failed { error: os_error(wf::ERROR_NO_DATA), buf };
        }
        let peer = self.ends[end].peer.unwrap();
        let bytes = buf.len();
        if bytes > 0 {
            self.ends[peer].inbox.push_back(buf.clone());
            self.serve_reads(peer);
        }
        self.writes += 1;
        if self.writes % 2 == 0 {
            return Submission::Complete { bytes, buf };
        }
        let id = self.in_flight(end, Work::Connect, buf);
        self.ops.get_mut(&id).unwrap().result = Some(Ok(bytes));
        if let Some(key) = self.ends[end].key {
            self.completions.push_back(Event { key, readable: false, writable: true });
        }
        Submission::Pending(id)
    }

    fn submit_connect(&mut self, end: usize) -> Submission<(), u64> {
        if self.ends[end].peer.is_some() {
            return Submission::Complete { bytes: 0, buf: () };
        }
        Submission::Pending(self.in_flight(end, Work::Connect, Vec::new()))
    }

    fn serve_reads(&mut self, end: usize) {
        let mut waiting: Vec<u64> = self
            .ops
            .iter()
            .filter(|(_, op)| op.end == end && op.result.is_none())
            .map(|(id, _)| *id)
            .collect();
        waiting.sort();
        for id in waiting {
            if let Work::Read(room) = self.ops[&id].work {
                if self.has_data(end) {
                    let taken = self.take_inbox(end, room);
                    let bytes = taken.len();
                    self.ops.get_mut(&id).unwrap().buf = taken;
                    self.complete(id, Ok(bytes));
                } else if self.peer_closed(end) {
                    self.complete(id, Err(wf::ERROR_BROKEN_PIPE as i32));
                }
            }
        }
    }

    fn is_complete(&self, id: u64) -> bool {
        self.ops[&id].result.is_some()
    }

    fn take(&mut self, id: u64) -> (io::Result<usize>, Vec<u8>) {
        let op = self.ops.remove(&id).unwrap();
        (op.result.unwrap().map_err(io::Error::from_raw_os_error), op.buf)
    }

    fn cancel(&mut self, id: u64) {
        self.complete(id, Err(wf::ERROR_OPERATION_ABORTED as i32));
        self.ops.remove(&id);
    }

    fn close(&mut self, end: usize) {
        self.ends[end].open = false;
        if let Some(peer) = self.ends[end].peer {
            self.serve_reads(peer);
        }
    }
}

// ---------------------------------------------------------------------
// The driver
// ---------------------------------------------------------------------

struct World {
    reactor: RefCell<Reactor>,
    kernel: RefCell<Kernel>,
    now: RefCell<i128>,
}

struct Flag(AtomicBool);

impl Wake for Flag {
    fn wake(self: Arc<Self>) {
        self.0.store(true, Ordering::SeqCst);
    }
}

impl World {
    fn new() -> Rc<World> {
        Rc::new(World {
            reactor: RefCell::new(Reactor::new()),
            kernel: RefCell::new(Kernel::default()),
            now: RefCell::new(0),
        })
    }

    /// Carries out a command to the poller.
    fn perform(&self, op: PollerOp) {
        match op {
            PollerOp::SetUserKey { file, key } => {
                self.kernel.borrow_mut().ends[file].key = Some(key);
            }
            PollerOp::Deactivate { file } => {
                self.kernel.borrow_mut().ends[file].key = None;
            }
            PollerOp::Nothing => {}
            other => panic!("unexpected command {:?}", other),
        }
    }

    fn settle(&self, parked: Parked) {
        if let Some(waker) = parked.replaced {
            waker.wake();
        }
        if let Some(op) = parked.update {
            self.perform(op);
        }
    }

    /// A round of the reactor.
    fn react(&self) {
        let mut reactor = self.reactor.borrow_mut();
        let now = *self.now.borrow();
        let mut pass = reactor.begin_react(now, None);
        let events: Vec<Event> = self.kernel.borrow_mut().completions.drain(..).collect();
        let outcome = if events.is_empty() {
            match pass.timeout {
                Some(nanos) => *self.now.borrow_mut() += nanos as i128,
                None => assert!(!pass.wakers.is_empty(), "nobody will ever be woken"),
            }
            WaitOutcome::NoEvents
        } else {
            WaitOutcome::Events
        };
        let now = *self.now.borrow();
        match reactor.on_wait(&mut pass, outcome, now) {
            AfterWait::Dispatch => {
                let mut next = 0;
                while next < events.len() {
                    let (index, update) = reactor.dispatch(&mut pass, &events, next);
                    next = index;
                    if let Some(op) = update {
                        self.perform(op);
                    }
                }
            }
            AfterWait::Finish => {}
            AfterWait::Fail => unreachable!(),
        }
        drop(reactor);
        for waker in pass.wakers {
            waker.wake();
        }
    }

    fn block_on<F: Future>(&self, future: F) -> F::Output {
        let mut future = Box::pin(future);
        let flag = Arc::new(Flag(AtomicBool::new(true)));
        let waker = Waker::from(flag.clone());
        let mut cx = Context::from_waker(&waker);
        loop {
            while flag.0.swap(false, Ordering::SeqCst) {
                if let Poll::Ready(output) = future.as_mut().poll(&mut cx) {
                    return output;
                }
            }
            self.react();
        }
    }

    async fn sleep(&self, millis: i128) {
        let when = *self.now.borrow() + millis * 1_000_000;
        let mut set = false;
        poll_fn(|cx| {
            if *self.now.borrow() >= when {
                return Poll::Ready(());
            }
            if !set {
                set = true;
                self.reactor.borrow_mut().insert_timer(when, cx.waker().clone());
            }
            Poll::Pending
        })
        .await
    }
}

fn wide(name: &str) -> Vec<u16> {
    name.encode_utf16().collect()
}

// ---------------------------------------------------------------------
// The endpoints
// ---------------------------------------------------------------------

struct Inner {
    world: Rc<World>,
    end: usize,
    core: RefCell<NamedPipeStream<u64, u32>>,
}

impl Drop for Inner {
    fn drop(&mut self) {
        let key = self.core.borrow().key;
        let op = self.world.reactor.borrow_mut().remove_io(key);
        self.world.perform(op);
        self.world.kernel.borrow_mut().close(self.end);
    }
}

#[derive(Clone)]
struct Stream(Rc<Inner>);

/// Cancels the operation if the future that holds it is dropped.
struct Guard<'a, B> {
    world: &'a World,
    op: Option<OwnedOp<B, u64>>,
}

impl<B> Drop for Guard<'_, B> {
    fn drop(&mut self) {
        if let Some(op) = self.op.take() {
            if let Some(id) = op.cancel() {
                self.world.kernel.borrow_mut().cancel(id);
            }
        }
    }
}

impl Stream {
    fn from_end(world: &Rc<World>, end: usize) -> Stream {
        let (core, op) =
            NamedPipeStream::from_overlapped_handle(&mut world.reactor.borrow_mut(), end);
        world.perform(op);
        Stream(Rc::new(Inner { world: world.clone(), end, core: RefCell::new(core) }))
    }

    async fn connect(world: &Rc<World>, name: &str) -> io::Result<Stream> {
        Self::open(world, NamedPipeStream::<u64, u32>::connect(wide(name)))
    }

    async fn connect_with_options(
        world: &Rc<World>,
        name: &str,
        options: NamedPipeConnectOptions,
    ) -> io::Result<Stream> {
        Self::open(world, NamedPipeStream::<u64, u32>::connect_with_options(wide(name), options))
    }

    fn open(world: &Rc<World>, request: OpenPipe) -> io::Result<Stream> {
        let end = world.kernel.borrow_mut().open_pipe(&request)?;
        Ok(Self::from_end(world, end))
    }

    /// Drives an operation that owns its buffer. `submit` hands the buffer to the kernel, `take`
    /// turns what the kernel gives back into the buffer.
    async fn drive<B>(
        &self,
        op: OwnedOp<B, u64>,
        submit: impl Fn(&mut Kernel, B) -> Submission<B, u64>,
        take: impl Fn(Vec<u8>) -> B,
    ) -> (io::Result<usize>, Option<usize>, B) {
        let world = &*self.0.world;
        let key = self.0.core.borrow().key;
        let mut guard = Guard { world, op: Some(op) };
        poll_fn(move |cx| {
            let mut reactor = world.reactor.borrow_mut();
            let ticker = reactor.ticker();
            let source = reactor.source_mut(key).unwrap();
            let op = guard.op.as_mut().unwrap();
            if let Some((buf, parked)) = op.begin(source, cx.waker().clone(), ticker) {
                world.settle(parked);
                let submission = submit(&mut world.kernel.borrow_mut(), buf);
                if let Some(done) = op.submitted(submission) {
                    return Poll::Ready((done.result, done.filled, done.buf));
                }
            }
            loop {
                let complete = world.kernel.borrow().is_complete(*op.in_flight().unwrap());
                match op.poll(complete, source, cx.waker().clone(), ticker) {
                    OwnedStep::Take(id) => {
                        let (raw, buf) = world.kernel.borrow_mut().take(id);
                        let done = op.kind.finish(raw, take(buf));
                        return Poll::Ready((done.result, done.filled, done.buf));
                    }
                    OwnedStep::Again => {}
                    OwnedStep::Pending(parked) => {
                        world.settle(parked);
                        return Poll::Pending;
                    }
                }
            }
        })
        .await
    }

    async fn read(&self, buf: Vec<u8>) -> (io::Result<usize>, Vec<u8>) {
        let end = self.0.end;
        let room = buf.capacity();
        let op = self.0.core.borrow().read(buf);
        let (result, filled, mut buf) = self
            .drive(op, |kernel, buf| kernel.submit_read(end, buf, room), |buf| buf)
            .await;
        if let Some(n) = filled {
            assert_eq!(result.as_ref().ok(), Some(&n));
            buf.truncate(n);
        }
        (result, buf)
    }

    async fn write(&self, buf: Vec<u8>) -> (io::Result<usize>, Vec<u8>) {
        let end = self.0.end;
        let op = self.0.core.borrow().write(buf);
        let (result, filled, buf) =
            self.drive(op, |kernel, buf| kernel.submit_write(end, buf), |buf| buf).await;
        assert_eq!(filled, None);
        (result, buf)
    }

    async fn wait_for_client(&self) -> io::Result<()> {
        let end = self.0.end;
        let op = self.0.core.borrow().connect_client();
        let (result, _, ()) =
            self.drive(op, |kernel, ()| kernel.submit_connect(end), |_| ()).await;
        result.map(|_| ())
    }

    fn poll_read(&self, cx: &mut Context<'_>, buf: &mut [u8]) -> Poll<io::Result<usize>> {
        let world = &*self.0.world;
        let mut core = self.0.core.borrow_mut();
        let mut reactor = world.reactor.borrow_mut();
        let ticker = reactor.ticker();
        let source = reactor.source_mut(core.key).unwrap();
        let state = &mut core.futures_io;
        match state.read_begin(buf.len(), source, cx.waker().clone(), ticker) {
            IoBegin::Submit { payload, parked } => {
                world.settle(parked);
                let submission =
                    world.kernel.borrow_mut().submit_read(self.0.end, Vec::new(), payload);
                if let Some(result) = state.read_submitted(submission, buf) {
                    return Poll::Ready(result);
                }
            }
            IoBegin::InFlight => {}
        }
        match self.wait(state, Side::Read, source, cx, ticker) {
            Some(id) => {
                let (raw, filled) = world.kernel.borrow_mut().take(id);
                Poll::Ready(FuturesIoState::<u64, u32>::read_finish(raw, filled, buf))
            }
            None => Poll::Pending,
        }
    }

    fn poll_write(&self, cx: &mut Context<'_>, data: &[u8]) -> Poll<io::Result<usize>> {
        let world = &*self.0.world;
        let mut core = self.0.core.borrow_mut();
        let mut reactor = world.reactor.borrow_mut();
        let ticker = reactor.ticker();
        let source = reactor.source_mut(core.key).unwrap();
        let state = &mut core.futures_io;
        match state.write_begin(data, source, cx.waker().clone(), ticker) {
            IoBegin::Submit { payload, parked } => {
                world.settle(parked);
                let submission = world.kernel.borrow_mut().submit_write(self.0.end, payload);
                if let Some(result) = state.write_submitted(submission) {
                    return Poll::Ready(result);
                }
            }
            IoBegin::InFlight => {}
        }
        match self.wait(state, Side::Write, source, cx, ticker) {
            Some(id) => {
                let (raw, _) = world.kernel.borrow_mut().take(id);
                Poll::Ready(FuturesIoState::<u64, u32>::write_finish(raw))
            }
            None => Poll::Pending,
        }
    }

    fn wait(
        &self,
        state: &mut FuturesIoState<u64, u32>,
        side: Side,
        source: &mut async_io::source::Source,
        cx: &mut Context<'_>,
        ticker: usize,
    ) -> Option<u64> {
        let world = &*self.0.world;
        let complete = world.kernel.borrow().is_complete(*state.in_flight(side).unwrap());
        match state.wait(side, complete, source, cx.waker().clone(), ticker) {
            IoWait::Take(id) => Some(id),
            IoWait::Recheck(parked) => {
                world.settle(parked);
                let complete = world.kernel.borrow().is_complete(*state.in_flight(side).unwrap());
                state.rechecked(side, complete)
            }
        }
    }

    fn poll_flush(&self, cx: &mut Context<'_>) -> Poll<io::Result<()>> {
        let mut core = self.0.core.borrow_mut();
        let state = &mut core.futures_io;
        if !state.flushing() {
            assert!(state.flush_started(2).is_none());
        }
        let task = state.flush_task().unwrap();
        *task -= 1;
        if *task > 0 {
            cx.waker().wake_by_ref();
            return Poll::Pending;
        }
        if let Some(id) = state.flush_done() {
            self.0.world.kernel.borrow_mut().cancel(id);
        }
        Poll::Ready(Ok(()))
    }

    async fn read_some(&self, buf: &mut [u8]) -> io::Result<usize> {
        poll_fn(|cx| self.poll_read(cx, buf)).await
    }

    async fn write_all(&self, mut data: &[u8]) -> io::Result<()> {
        while !data.is_empty() {
            let n = poll_fn(|cx| self.poll_write(cx, data)).await?;
            assert!(n > 0);
            data = &data[n..];
        }
        Ok(())
    }

    async fn flush(&self) -> io::Result<()> {
        poll_fn(|cx| self.poll_flush(cx)).await
    }

    fn inherits(&self) -> bool {
        self.0.world.kernel.borrow().ends[self.0.end].inherit
    }
}

/// A listener whose clones share the latch of the first instance.
#[derive(Clone)]
struct Listener {
    world: Rc<World>,
    core: Rc<RefCell<NamedPipeListener>>,
}

impl Listener {
    fn new(world: &Rc<World>, core: NamedPipeListener) -> Listener {
        Listener { world: world.clone(), core: Rc::new(RefCell::new(core)) }
    }

    fn bind(world: &Rc<World>, name: &str, mode: PipeMode) -> Listener {
        Self::new(world, NamedPipeListener::bind(wide(name), mode, None).expect("bind"))
    }

    async fn accept(&self) -> io::Result<Stream> {
        let end = {
            let mut core = self.core.borrow_mut();
            let request = core.accept();
            self.world.kernel.borrow_mut().create_pipe(&request)?
        };
        let stream = Stream::from_end(&self.world, end);
        stream.wait_for_client().await?;
        Ok(stream)
    }
}

// ---------------------------------------------------------------------
// The tests
// ---------------------------------------------------------------------

#[test]
fn owned_round_trip_byte_mode() {
    let world = World::new();
    let name = r"\\.\pipe\async_io_test_owned_rt";
    let listener = Listener::bind(&world, name, PipeMode::Byte);

    let server_task = async {
        let server = listener.accept().await.unwrap();
        let (res, buf) = server.read(Vec::with_capacity(64)).await;
        let n = res.unwrap();
        assert_eq!(&buf[..n], b"hello");
        let (res, _) = server.write(b"world".to_vec()).await;
        let m = res.unwrap();
        assert_eq!(m, 5);
    };
    let client_task = async {
        world.sleep(10).await;
        let client = Stream::connect(&world, name).await.unwrap();
        let (res, _) = client.write(b"hello".to_vec()).await;
        let n = res.unwrap();
        assert_eq!(n, 5);
        let (res, buf) = client.read(Vec::with_capacity(64)).await;
        let m = res.unwrap();
        assert_eq!(&buf[..m], b"world");
    };
    world.block_on(zip(server_task, client_task));
}

#[test]
fn futures_io_round_trip() {
    let world = World::new();
    let name = r"\\.\pipe\async_io_test_futio_rt";
    let listener = Listener::bind(&world, name, PipeMode::Byte);

    let server_task = async {
        let server = listener.accept().await.unwrap();
        let mut buf = [0u8; 32];
        let n = server.read_some(&mut buf).await.unwrap();
        assert_eq!(&buf[..n], b"ping");
        server.write_all(b"pong").await.unwrap();
        server.flush().await.unwrap();
    };
    let client_task = async {
        world.sleep(10).await;
        let client = Stream::connect(&world, name).await.unwrap();
        client.write_all(b"ping").await.unwrap();
        client.flush().await.unwrap();
        let mut buf = [0u8; 32];
        let n = client.read_some(&mut buf).await.unwrap();
        assert_eq!(&buf[..n], b"pong");
    };
    world.block_on(zip(server_task, client_task));
}

#[test]
fn peer_close_eof_futures_io() {
    let world = World::new();
    let name = r"\\.\pipe\async_io_test_eof_futio";
    let listener = Listener::bind(&world, name, PipeMode::Byte);

    let server_task = async {
        let server = listener.accept().await.unwrap();
        let mut buf = [0u8; 16];
        let n = server.read_some(&mut buf).await.unwrap();
        assert_eq!(n, 0, "expected EOF after peer drop");
    };
    let client_task = async {
        world.sleep(10).await;
        let client = Stream::connect(&world, name).await.unwrap();
        drop(client);
    };
    world.block_on(zip(server_task, client_task));
}

#[test]
fn connect_with_options_inbound_server() {
    let world = World::new();
    let name = r"\\.\pipe\async_io_test_inbound";
    let core = NamedPipeListener::builder(wide(name))
        .access(PipeAccess::Outbound)
        .bind()
        .unwrap();
    let listener = Listener::new(&world, core);

    let server_task = async {
        let server = listener.accept().await.unwrap();
        let (res, _) = server.write(b"data".to_vec()).await;
        let n = res.unwrap();
        assert_eq!(n, 4);
        server
    };
    let client_task = async {
        world.sleep(10).await;
        let client = Stream::connect_with_options(
            &world,
            name,
            NamedPipeConnectOptions::new().read(true).write(false),
        )
        .await
        .unwrap();
        let (res, buf) = client.read(Vec::with_capacity(8)).await;
        let n = res.unwrap();
        assert_eq!(&buf[..n], b"data");
    };
    world.block_on(zip(server_task, client_task));
}

#[test]
fn connect_fails_when_no_server() {
    let world = World::new();
    let name = r"\\.\pipe\async_io_test_no_server";
    let err = world.block_on(Stream::connect(&world, name)).err().unwrap();
    assert_eq!(err.raw_os_error(), Some(wf::ERROR_FILE_NOT_FOUND as i32));
    assert_eq!(
        err.kind(),
        io::ErrorKind::NotFound,
        "ERROR_FILE_NOT_FOUND must surface as ErrorKind::NotFound"
    );
}

#[test]
fn first_pipe_instance_locks_name() {
    let world = World::new();
    let name = r"\\.\pipe\async_io_test_first_inst";
    let listener_a = Listener::bind(&world, name, PipeMode::Byte);
    let listener_b = Listener::bind(&world, name, PipeMode::Byte);

    let server_a_task = async { listener_a.accept().await.unwrap() };
    let client_task = async {
        world.sleep(20).await;
        Stream::connect(&world, name).await.unwrap()
    };
    let (server_a, client) = world.block_on(zip(server_a_task, client_task));

    let err = world.block_on(listener_b.accept()).err().unwrap();
    assert_eq!(
        err.raw_os_error(),
        Some(wf::ERROR_ACCESS_DENIED as i32),
        "second listener should be rejected by FIRST_PIPE_INSTANCE"
    );

    drop(client);
    drop(server_a);
}

#[test]
fn large_data_round_trip_eof_on_drop() {
    const CHUNK: &[u8] = b"\
Lorem ipsum dolor sit amet, consectetur adipiscing elit. \
Donec pretium ante erat, vitae sodales mi varius quis.\n";

    let world = World::new();
    let name = r"\\.\pipe\async_io_test_large_rt";
    let listener = Listener::bind(&world, name, PipeMode::Byte);

    let server_task = async {
        let server = listener.accept().await.unwrap();
        let mut buf = [0u8; 4096];
        let mut total = 0usize;
        loop {
            let n = server.read_some(&mut buf).await.unwrap();
            if n == 0 {
                break;
            }
            total += n;
        }
        total
    };

    let payload = CHUNK.repeat(1000);
    let expected = payload.len() * 2;

    let client_task = async {
        world.sleep(10).await;
        let client = Stream::connect(&world, name).await.unwrap();
        client.write_all(&payload).await.unwrap();
        client.write_all(&payload).await.unwrap();
        client.flush().await.unwrap();
        drop(client);
    };

    let (total, ()) = world.block_on(zip(server_task, client_task));
    assert_eq!(total, expected);
}

#[test]
fn message_mode_round_trip() {
    let world = World::new();
    let name = r"\\.\pipe\async_io_test_msg_rt";
    let core = NamedPipeListener::builder(wide(name))
        .pipe_mode(PipeMode::Message)
        .in_buffer_size(4096)
        .out_buffer_size(4096)
        .bind()
        .unwrap();
    let listener = Listener::new(&world, core);

    let msg_a = b"first-message".to_vec();
    let msg_b = b"second-much-longer-message-payload".to_vec();
    let exp_a = msg_a.clone();
    let exp_b = msg_b.clone();

    let server_task = async {
        let server = listener.accept().await.unwrap();
        assert!(world.kernel.borrow().ends[server.0.end].carries_messages);
        let (res, buf) = server.read(Vec::with_capacity(256)).await;
        let n1 = res.unwrap();
        assert_eq!(&buf[..n1], exp_a.as_slice());
        let (res, buf) = server.read(Vec::with_capacity(256)).await;
        let n2 = res.unwrap();
        assert_eq!(&buf[..n2], exp_b.as_slice());
    };
    let client_task = async {
        world.sleep(10).await;
        let client = Stream::connect(&world, name).await.unwrap();
        let (res, _) = client.write(msg_a).await;
        res.unwrap();
        let (res, _) = client.write(msg_b).await;
        res.unwrap();
        client
    };
    world.block_on(zip(server_task, client_task));
}

#[test]
fn incoming_stream_yields_clients() {
    let world = World::new();
    let name = r"\\.\pipe\async_io_test_incoming";
    let listener = Listener::bind(&world, name, PipeMode::Byte);

    let server_task = async {
        let mut totals = Vec::new();
        for _ in 0..3 {
            let server = listener.accept().await.unwrap();
            let (res, buf) = server.read(Vec::with_capacity(8)).await;
            let n = res.unwrap();
            totals.push(buf[..n].to_vec());
        }
        totals
    };
    let client_task = async {
        let mut sent = Vec::new();
        for i in 0..3u8 {
            world.sleep(10).await;
            let client = Stream::connect(&world, name).await.unwrap();
            let payload = vec![b'A' + i];
            let (res, p) = client.write(payload).await;
            res.unwrap();
            sent.push(p);
            drop(client);
        }
        sent
    };
    let (got, sent) = world.block_on(zip(server_task, client_task));
    assert_eq!(got, sent);
}

#[test]
fn builder_options_method_overrides() {
    let world = World::new();
    let name = r"\\.\pipe\async_io_test_opts_method";
    let opts = NamedPipeOpenOptions::new()
        .access(PipeAccess::Outbound)
        .in_buffer_size(2048)
        .out_buffer_size(2048);
    let core = NamedPipeListener::builder(wide(name)).options(opts).bind().unwrap();
    let listener = Listener::new(&world, core);

    let server_task = async {
        let server = listener.accept().await.unwrap();
        let (res, _) = server.write(b"sent".to_vec()).await;
        res.unwrap();
        server
    };
    let client_task = async {
        world.sleep(10).await;
        let client = Stream::connect_with_options(
            &world,
            name,
            NamedPipeConnectOptions::new().read(true).write(false),
        )
        .await
        .unwrap();
        let (res, buf) = client.read(Vec::with_capacity(8)).await;
        let n = res.unwrap();
        assert_eq!(&buf[..n], b"sent");
    };
    world.block_on(zip(server_task, client_task));
}

#[test]
fn read_future_drop_cancels_cleanly() {
    let world = World::new();
    let name = r"\\.\pipe\async_io_test_cancel_read";
    let listener = Listener::bind(&world, name, PipeMode::Byte);

    let server_task = async {
        let server = listener.accept().await.unwrap();
        world.sleep(100).await;
        let (res, _) = server.write(b"after-cancel".to_vec()).await;
        res.unwrap();
        world.sleep(50).await;
    };
    let client_task = async {
        world.sleep(10).await;
        let client = Stream::connect(&world, name).await.unwrap();
        {
            let read_fut = client.read(Vec::with_capacity(64));
            drop(read_fut);
        }
        world.sleep(20).await;
        let (res, buf) = client.read(Vec::with_capacity(64)).await;
        let n = res.expect("post-cancel read must succeed");
        assert_eq!(&buf[..n], b"after-cancel");
    };
    world.block_on(zip(server_task, client_task));
}

#[test]
fn read_in_flight_drop_cancels_cleanly() {
    let world = World::new();
    let name = r"\\.\pipe\async_io_test_cancel_flight";
    let listener = Listener::bind(&world, name, PipeMode::Byte);

    let server_task = async {
        let server = listener.accept().await.unwrap();
        world.sleep(100).await;
        let (res, _) = server.write(b"after-cancel".to_vec()).await;
        res.unwrap();
        world.sleep(50).await;
    };
    let client_task = async {
        world.sleep(10).await;
        let client = Stream::connect(&world, name).await.unwrap();
        {
            // Polled once: the read is in flight when its future is dropped.
            let mut read_fut = Box::pin(client.read(Vec::with_capacity(64)));
            poll_fn(|cx| {
                assert!(read_fut.as_mut().poll(cx).is_pending());
                Poll::Ready(())
            })
            .await;
        }
        let (res, buf) = client.read(Vec::with_capacity(64)).await;
        let n = res.expect("post-cancel read must succeed");
        assert_eq!(&buf[..n], b"after-cancel");
    };
    world.block_on(zip(server_task, client_task));
}

#[test]
fn accept_future_drop_then_reaccept() {
    let world = World::new();
    let name = r"\\.\pipe\async_io_test_cancel_accept";
    let listener = Listener::bind(&world, name, PipeMode::Byte);

    {
        let accept_fut = listener.accept();
        drop(accept_fut);
    }

    let server_task = async {
        world.sleep(20).await;
        let server = listener.accept().await.unwrap();
        let (res, buf) = server.read(Vec::with_capacity(8)).await;
        let n = res.unwrap();
        assert_eq!(&buf[..n], b"hi");
    };
    let client_task = async {
        world.sleep(40).await;
        let client = Stream::connect(&world, name).await.unwrap();
        let (res, _) = client.write(b"hi".to_vec()).await;
        res.unwrap();
        client
    };
    world.block_on(zip(server_task, client_task));
}

#[test]
fn message_mode_partial_read() {
    let world = World::new();
    let name = r"\\.\pipe\async_io_test_msg_partial";
    let core = NamedPipeListener::builder(wide(name))
        .pipe_mode(PipeMode::Message)
        .in_buffer_size(4096)
        .out_buffer_size(4096)
        .bind()
        .unwrap();
    let listener = Listener::new(&world, core);

    let payload: Vec<u8> = (0..32u8).collect();
    let exp = payload.clone();

    let server_task = async {
        let server = listener.accept().await.unwrap();
        let (res, _) = server.write(payload).await;
        res.unwrap();
        world.sleep(50).await;
    };
    let client_task = async {
        world.sleep(10).await;
        let client = Stream::connect(&world, name).await.unwrap();

        let (res, buf) = client.read(Vec::with_capacity(8)).await;
        let n = res.expect("partial read must surface as Ok");
        assert_eq!(n, 8, "first read should fill the small buffer");
        assert_eq!(&buf[..n], &exp[..8]);

        let mut got = Vec::from(&buf[..n]);
        while got.len() < exp.len() {
            let (res, buf) = client.read(Vec::with_capacity(64)).await;
            let n = res.unwrap();
            assert!(n > 0, "remaining bytes must still be readable");
            got.extend_from_slice(&buf[..n]);
        }
        assert_eq!(got, exp, "reassembled payload matches original");
    };
    world.block_on(zip(server_task, client_task));
}

#[test]
fn zero_length_read_write() {
    let world = World::new();
    let name = r"\\.\pipe\async_io_test_zero_len";
    let listener = Listener::bind(&world, name, PipeMode::Byte);

    let server_task = async {
        let server = listener.accept().await.unwrap();
        let (res, buf) = server.write(Vec::<u8>::new()).await;
        let n = res.expect("zero-length write");
        assert_eq!(n, 0);
        assert!(buf.is_empty(), "buffer returned unchanged");
        world.sleep(50).await;
    };
    let client_task = async {
        world.sleep(10).await;
        let client = Stream::connect(&world, name).await.unwrap();
        let (res, buf) = client.read(Vec::<u8>::with_capacity(0)).await;
        let n = res.expect("zero-length read");
        assert_eq!(n, 0);
        assert_eq!(buf.capacity(), 0);
        client
    };
    world.block_on(zip(server_task, client_task));
}

#[test]
fn concurrent_read_and_write_on_same_stream() {
    let world = World::new();
    let name = r"\\.\pipe\async_io_test_concurrent";
    let listener = Listener::bind(&world, name, PipeMode::Byte);

    let server_task = async {
        let server = listener.accept().await.unwrap();
        let (res, buf) = server.read(Vec::with_capacity(64)).await;
        let n = res.unwrap();
        let (res, _) = server.write(buf[..n].to_vec()).await;
        res.unwrap();
        world.sleep(50).await;
    };
    let client_task = async {
        world.sleep(10).await;
        let client = Stream::connect(&world, name).await.unwrap();
        let read_fut = async {
            let (res, buf) = client.read(Vec::with_capacity(16)).await;
            let n = res.unwrap();
            buf[..n].to_vec()
        };
        let write_fut = async {
            let (res, _) = client.write(b"echo-me".to_vec()).await;
            res.unwrap();
        };
        let (got, ()) = zip(read_fut, write_fut).await;
        assert_eq!(got, b"echo-me");
    };
    world.block_on(zip(server_task, client_task));
}

#[test]
fn inherit_handle_server_sets_handle_flag_inherit() {
    let world = World::new();
    let name = r"\\.\pipe\async_io_test_inherit_srv";
    let opts = NamedPipeOpenOptions::new().inherit_handle(true);
    let core = NamedPipeListener::builder(wide(name)).options(opts).bind().expect("bind");
    let listener = Listener::new(&world, core);
    let (server, _client) =
        world.block_on(zip(listener.accept(), Stream::connect(&world, name)));
    let server = server.expect("accept");
    assert!(server.inherits(), "expected HANDLE_FLAG_INHERIT to be set");
}

#[test]
fn default_inherit_handle_is_off() {
    let world = World::new();
    let name = r"\\.\pipe\async_io_test_inherit_off";
    let listener = Listener::bind(&world, name, PipeMode::Byte);
    let (server, client) =
        world.block_on(zip(listener.accept(), Stream::connect(&world, name)));
    let server = server.expect("accept");
    assert!(!server.inherits());
    assert!(!client.unwrap().inherits());
}

#[test]
fn inherit_handle_client_sets_handle_flag_inherit() {
    let world = World::new();
    let name = r"\\.\pipe\async_io_test_inherit_cli";
    let listener = Listener::bind(&world, name, PipeMode::Byte);
    let opts = NamedPipeConnectOptions::new().inherit_handle(true);
    let (server, client) = world.block_on(zip(
        listener.accept(),
        Stream::connect_with_options(&world, name, opts),
    ));
    let server = server.expect("accept");
    let client = client.expect("connect");
    assert!(client.inherits());
    assert!(!server.inherits());
}

#[test]
fn invalid_sd_bytes_fail_at_accept() {
    let world = World::new();
    let name = r"\\.\pipe\async_io_test_bad_sd";
    let opts =
        NamedPipeOpenOptions::new().security_descriptor(vec![0xFFu8; 64].into_boxed_slice());
    let core = NamedPipeListener::builder(wide(name)).options(opts).bind().expect("bind (lazy)");
    let listener = Listener::new(&world, core);
    let err = world.block_on(listener.accept()).err().expect("accept must fail");
    assert!(err.raw_os_error().is_some(), "expected an OS error");
}

/// Clones of a listener share the latch: only the first request asks to be the first instance.
#[test]
fn clones_share_the_first_instance_latch() {
    let world = World::new();
    let name = r"\\.\pipe\async_io_test_latch";
    let listener = Listener::bind(&world, name, PipeMode::Byte);
    let other = listener.clone();
    let (first, _c) = world.block_on(zip(listener.accept(), Stream::connect(&world, name)));
    let first = first.unwrap();
    let (second, _d) = world.block_on(zip(other.accept(), Stream::connect(&world, name)));
    second.unwrap();
    drop(first);
}

/// Two tasks that read through one stream displace each other's waker, and both are served.
#[test]
fn concurrent_reads_are_both_served() {
    let world = World::new();
    let name = r"\\.\pipe\async_io_test_two_reads";
    let listener = Listener::bind(&world, name, PipeMode::Byte);

    let server_task = async {
        let server = listener.accept().await.unwrap();
        world.sleep(50).await;
        let (res, _) = server.write(b"a".to_vec()).await;
        res.unwrap();
        let (res, _) = server.write(b"b".to_vec()).await;
        res.unwrap();
        server
    };
    let client_task = async {
        world.sleep(10).await;
        let client = Stream::connect(&world, name).await.unwrap();
        let ((r1, b1), (r2, b2)) =
            zip(client.read(Vec::with_capacity(8)), client.read(Vec::with_capacity(8))).await;
        assert_eq!(r1.unwrap() + r2.unwrap(), 2);
        let mut got = b1;
        got.extend(b2);
        assert_eq!(got, b"ab");
    };
    world.block_on(zip(server_task, client_task));
}
