# async_io

The decision-making core of an asynchronous I/O reactor, and of the Windows named-pipe endpoints
built on it, verified with [Verus](https://github.com/verus-lang/verus).

The library performs no I/O. It holds the state that decides which task is woken when, and answers
with commands that a driver carries out.

- `src/direction.rs`, `src/source.rs`: deliveries, snapshots and the tasks that wait on a source.
  A source is in level mode (readiness is reported as long as it lasts) or in edge mode (each
  completion is delivered once, and counted).
- `src/timers.rs`, `src/reactor.rs`: timers, the table of sources, and the rounds of the reactor.
- `src/registration.rs`, `src/event.rs`: commands to the poller, and its events.
- `src/named_pipe.rs`, `src/listener.rs`, `src/stream.rs`, `src/operation.rs`, `src/os_error.rs`,
  `src/wide.rs`, `src/win32.rs`: options, requests and operations of named pipes.
- `src/slots.rs`, `src/source_table.rs`, `src/op_queue.rs`: what is believed of the `slab` and
  `concurrent-queue` crates. `src/source.rs` and `src/os_error.rs` say what is believed of wakers
  and of I/O errors.
- `src/laws/`: what holds of several operations together. No delivery is missed and none is made
  up; whoever waits is woken, by its own waker or by one that wakes the same task; each timer fires
  once and in order; the poller watches for all that wait; a task that arms a source before it
  submits notices the completion.
- `app/`: the driver. It owns the poller, the locks and the handles. Its Windows half
  (`app/windows/`) needs a `polling` with a completion-mode file API (`RegisteredFile`, `OpHandle`,
  `Submission`), which polling 3.11.0 lacks; with that version only the other half compiles.

Times are nanoseconds from an origin that the driver chooses.
