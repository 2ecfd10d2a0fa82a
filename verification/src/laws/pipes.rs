//! Laws of named pipes: what requests always or never ask for, and what a read returns.

use crate::listener::{CreatePipe, ListenerView};
use crate::named_pipe::{ConnectOptionsView, PipeAccess, PipeMode};
use crate::operation::OpKind;
use crate::os_error::{is_eof, os_code, read_of_error, OsFailure};
use crate::source::Side;
use crate::stream::{opens, overwritten, smaller, DirState, FuturesIoState, OpenPipe};
use crate::wide::{utf16, utf16_units};
use crate::win32::{
    ERROR_BROKEN_PIPE, ERROR_HANDLE_EOF, ERROR_MORE_DATA, ERROR_OPERATION_ABORTED,
    FILE_FLAG_FIRST_PIPE_INSTANCE, FILE_FLAG_OVERLAPPED, FILE_FLAG_WRITE_THROUGH,
    FILE_GENERIC_READ, FILE_GENERIC_WRITE, OPEN_EXISTING, PIPE_ACCESS_DUPLEX, PIPE_ACCESS_INBOUND,
    PIPE_ACCESS_OUTBOUND, PIPE_READMODE_BYTE, PIPE_READMODE_MESSAGE, PIPE_TYPE_BYTE,
    PIPE_TYPE_MESSAGE,
};
use std::io;
use vstd::prelude::*;

verus! {

/// No mode asks for messages to be read from a pipe that carries a byte stream, which Windows
/// rejects; and different modes ask for different things.
pub proof fn pipe_modes_are_valid(mode: PipeMode, other: PipeMode)
    ensures
        mode.flags() & PIPE_READMODE_MESSAGE != 0 ==> mode.flags() & PIPE_TYPE_MESSAGE != 0,
        mode.flags() & PIPE_TYPE_MESSAGE != 0 <==> mode.sends_messages(),
        mode.flags() & PIPE_READMODE_MESSAGE != 0 <==> mode.reads_messages(),
        mode.sends_messages() <==> mode == PipeMode::MessageStreamRead || mode == PipeMode::Message,
        mode.reads_messages() <==> mode == PipeMode::Message,
        mode.flags() == other.flags() ==> mode == other,
{
    assert(PIPE_TYPE_BYTE | PIPE_READMODE_BYTE == 0) by (bit_vector);
    assert(PIPE_TYPE_MESSAGE | PIPE_READMODE_BYTE == 4) by (bit_vector);
    assert(PIPE_TYPE_MESSAGE | PIPE_READMODE_MESSAGE == 6) by (bit_vector);
    assert(0u32 & 2 == 0 && 0u32 & 4 == 0) by (bit_vector);
    assert(4u32 & 2 == 0 && 4u32 & 4 == 4) by (bit_vector);
    assert(6u32 & 2 == 2 && 6u32 & 4 == 4) by (bit_vector);
}

proof fn lemma_open_mode_bits(access: PipeAccess)
    ensures
        ({
            let plain = access.flag() | FILE_FLAG_OVERLAPPED;
            let first = plain | FILE_FLAG_FIRST_PIPE_INSTANCE;
            &&& plain & FILE_FLAG_OVERLAPPED == FILE_FLAG_OVERLAPPED
            &&& first & FILE_FLAG_OVERLAPPED == FILE_FLAG_OVERLAPPED
            &&& plain & FILE_FLAG_FIRST_PIPE_INSTANCE == 0
            &&& first & FILE_FLAG_FIRST_PIPE_INSTANCE == FILE_FLAG_FIRST_PIPE_INSTANCE
            &&& plain & PIPE_ACCESS_DUPLEX == access.flag()
            &&& first & PIPE_ACCESS_DUPLEX == access.flag()
        }),
{
    let flag = access.flag();
    assert(flag == PIPE_ACCESS_INBOUND || flag == PIPE_ACCESS_OUTBOUND || flag
        == PIPE_ACCESS_DUPLEX);
    assert({
        let plain = flag | FILE_FLAG_OVERLAPPED;
        let first = plain | FILE_FLAG_FIRST_PIPE_INSTANCE;
        &&& plain & FILE_FLAG_OVERLAPPED == FILE_FLAG_OVERLAPPED
        &&& first & FILE_FLAG_OVERLAPPED == FILE_FLAG_OVERLAPPED
        &&& plain & FILE_FLAG_FIRST_PIPE_INSTANCE == 0
        &&& first & FILE_FLAG_FIRST_PIPE_INSTANCE == FILE_FLAG_FIRST_PIPE_INSTANCE
        &&& plain & PIPE_ACCESS_DUPLEX == flag
        &&& first & PIPE_ACCESS_DUPLEX == flag
    }) by (bit_vector)
        requires
            flag == PIPE_ACCESS_INBOUND || flag == PIPE_ACCESS_OUTBOUND || flag
                == PIPE_ACCESS_DUPLEX,
    ;
}

/// Whatever its options are, a server's request asks for overlapped operations and for the access
/// that was configured.
pub proof fn server_is_always_overlapped(listener: ListenerView)
    ensures
        listener.open_mode() & FILE_FLAG_OVERLAPPED == FILE_FLAG_OVERLAPPED,
        listener.open_mode() & PIPE_ACCESS_DUPLEX == listener.options.access.flag(),
{
    lemma_open_mode_bits(listener.options.access);
}

/// A listener asks to be the first instance of its pipe in its first request, and in no other: two
/// servers with one name do not both start unnoticed, and a server does not get in its own way.
pub proof fn first_instance_is_asked_for_once(listener: ListenerView)
    ensures
        listener.open_mode() & FILE_FLAG_FIRST_PIPE_INSTANCE != 0 <==> !listener.accepted,
        ({
            let after = ListenerView { accepted: true, ..listener };
            after.open_mode() & FILE_FLAG_FIRST_PIPE_INSTANCE == 0
        }),
{
    lemma_open_mode_bits(listener.options.access);
}

/// Whatever its options are, a client's request asks for overlapped operations; for write-through
/// exactly if that was configured.
pub proof fn client_is_always_overlapped(options: ConnectOptionsView)
    ensures
        options.flags() & FILE_FLAG_OVERLAPPED == FILE_FLAG_OVERLAPPED,
        options.flags() & FILE_FLAG_WRITE_THROUGH != 0 <==> options.write_through,
{
    assert(FILE_FLAG_OVERLAPPED & FILE_FLAG_OVERLAPPED == FILE_FLAG_OVERLAPPED) by (bit_vector);
    assert(FILE_FLAG_OVERLAPPED & FILE_FLAG_WRITE_THROUGH == 0) by (bit_vector);
    assert((FILE_FLAG_OVERLAPPED | FILE_FLAG_WRITE_THROUGH) & FILE_FLAG_OVERLAPPED
        == FILE_FLAG_OVERLAPPED) by (bit_vector);
    assert((FILE_FLAG_OVERLAPPED | FILE_FLAG_WRITE_THROUGH) & FILE_FLAG_WRITE_THROUGH != 0)
        by (bit_vector);
}

/// A read returns an error exactly if the operating system gave one that does not mean the end of
/// the pipe; it notes a number of filled bytes in the buffer exactly if it returns that number;
/// and it always returns the buffer.
pub proof fn read_returns_eof_as_nothing_read<B>(raw: io::Result<usize>, buf: B)
    ensures
        ({
            let finished = OpKind::Read.finished(raw, buf);
            &&& finished.buf == buf
            &&& match raw {
                Ok(bytes) => finished.result == Ok::<usize, io::Error>(bytes),
                Err(error) => if is_eof(os_code(error)) {
                    finished.result == Ok::<usize, io::Error>(0)
                } else {
                    finished.result == Err::<usize, io::Error>(error)
                },
            }
            &&& finished.filled == match finished.result {
                Ok(bytes) => Some(bytes),
                Err(_) => None,
            }
        }),
{
}

/// Writes and waits for clients return what the operating system said, and the buffer.
pub proof fn write_returns_what_happened<B>(kind: OpKind, raw: io::Result<usize>, buf: B)
    requires
        kind != OpKind::Read,
    ensures
        kind.finished(raw, buf).result == raw,
        kind.finished(raw, buf).filled is None,
        kind.finished(raw, buf).buf == buf,
{
}

/// That a message did not fit is not the end of the pipe.
pub proof fn partial_message_is_no_eof(error: io::Error)
    ensures
        (OsFailure { code: Some(ERROR_MORE_DATA), error }).as_read() == Err::<usize, io::Error>(
            error,
        ),
{
}

/// Every request of a listener, the first and all later ones, asks for the pipe with its name, in
/// the wire format and read mode, with the access, the limits and the security that were
/// configured, and with overlapped operations. It asks to be the first instance exactly if it is
/// the first request; and it asks for nothing else.
pub proof fn every_request_asks_for_the_configured_pipe(
    listener: ListenerView,
    request: CreatePipe,
)
    requires
        listener.asks_for(request),
    ensures
        request.name@.len() == listener.addr.len() + 1,
        forall|i: int|
            0 <= i < listener.addr.len() ==> #[trigger] request.name@[i] == listener.addr[i],
        request.name@[listener.addr.len() as int] == 0,
        request.pipe_mode & PIPE_TYPE_MESSAGE != 0 <==> listener.pipe_mode != PipeMode::Byte,
        request.pipe_mode & PIPE_READMODE_MESSAGE != 0 <==> listener.pipe_mode == PipeMode::Message,
        request.pipe_mode & !(PIPE_TYPE_MESSAGE | PIPE_READMODE_MESSAGE) == 0,
        request.open_mode & FILE_FLAG_OVERLAPPED != 0,
        request.open_mode & FILE_FLAG_FIRST_PIPE_INSTANCE != 0 <==> !listener.accepted,
        request.open_mode & PIPE_ACCESS_INBOUND != 0 <==> listener.options.access
            != PipeAccess::Outbound,
        request.open_mode & PIPE_ACCESS_OUTBOUND != 0 <==> listener.options.access
            != PipeAccess::Inbound,
        request.open_mode & !(PIPE_ACCESS_DUPLEX | FILE_FLAG_OVERLAPPED
            | FILE_FLAG_FIRST_PIPE_INSTANCE) == 0,
        request.max_instances == listener.options.max_instances,
        request.out_buffer_size == listener.options.out_buffer_size,
        request.in_buffer_size == listener.options.in_buffer_size,
        request.default_timeout == 0,
        request.security is Some <==> listener.options.inherit_handle
            || listener.options.security_descriptor is Some,
        request.security matches Some(security) ==> {
            &&& security.inherit_handle == listener.options.inherit_handle
            &&& security.descriptor is Some <==> listener.options.security_descriptor is Some
            &&& security.descriptor matches Some(bytes) ==> listener.options.security_descriptor
                == Some(bytes@)
        },
{
    let mode = request.pipe_mode;
    assert(PIPE_TYPE_BYTE | PIPE_READMODE_BYTE == 0) by (bit_vector);
    assert(PIPE_TYPE_MESSAGE | PIPE_READMODE_BYTE == 4) by (bit_vector);
    assert(PIPE_TYPE_MESSAGE | PIPE_READMODE_MESSAGE == 6) by (bit_vector);
    assert(mode == 0 || mode == 4 || mode == 6);
    assert({
        &&& mode & PIPE_TYPE_MESSAGE != 0 <==> mode != 0
        &&& mode & PIPE_READMODE_MESSAGE != 0 <==> mode == 6
        &&& mode & !(PIPE_TYPE_MESSAGE | PIPE_READMODE_MESSAGE) == 0
    }) by (bit_vector)
        requires
            mode == 0 || mode == 4 || mode == 6,
    ;
    let flag = listener.options.access.flag();
    let open = request.open_mode;
    let first = !listener.accepted;
    assert(open == if first {
        flag | FILE_FLAG_OVERLAPPED | FILE_FLAG_FIRST_PIPE_INSTANCE
    } else {
        flag | FILE_FLAG_OVERLAPPED
    });
    assert({
        &&& open & FILE_FLAG_OVERLAPPED != 0
        &&& open & FILE_FLAG_FIRST_PIPE_INSTANCE != 0 <==> first
        &&& open & PIPE_ACCESS_INBOUND != 0 <==> flag != PIPE_ACCESS_OUTBOUND
        &&& open & PIPE_ACCESS_OUTBOUND != 0 <==> flag != PIPE_ACCESS_INBOUND
        &&& open & !(PIPE_ACCESS_DUPLEX | FILE_FLAG_OVERLAPPED | FILE_FLAG_FIRST_PIPE_INSTANCE)
            == 0
    }) by (bit_vector)
        requires
            flag == PIPE_ACCESS_INBOUND || flag == PIPE_ACCESS_OUTBOUND || flag
                == PIPE_ACCESS_DUPLEX,
            open == if first {
                flag | FILE_FLAG_OVERLAPPED | FILE_FLAG_FIRST_PIPE_INSTANCE
            } else {
                flag | FILE_FLAG_OVERLAPPED
            },
    ;
}

/// The requests of one listener differ in the first-instance flag only.
pub proof fn requests_differ_in_the_first_instance_flag_only(
    a: ListenerView,
    b: ListenerView,
    first: CreatePipe,
    second: CreatePipe,
)
    requires
        a.addr == b.addr,
        a.pipe_mode == b.pipe_mode,
        a.options == b.options,
        a.asks_for(first),
        b.asks_for(second),
    ensures
        first.name@ == second.name@,
        first.pipe_mode == second.pipe_mode,
        first.max_instances == second.max_instances,
        first.out_buffer_size == second.out_buffer_size,
        first.in_buffer_size == second.in_buffer_size,
        first.default_timeout == second.default_timeout,
        first.open_mode | FILE_FLAG_FIRST_PIPE_INSTANCE == second.open_mode
            | FILE_FLAG_FIRST_PIPE_INSTANCE,
        a.accepted == b.accepted ==> first.open_mode == second.open_mode,
        first.security is Some <==> second.security is Some,
        first.security is Some ==> {
            let s = first.security->0;
            let t = second.security->0;
            &&& s.inherit_handle == t.inherit_handle
            &&& s.descriptor is Some <==> t.descriptor is Some
            &&& s.descriptor is Some ==> s.descriptor->0@ == t.descriptor->0@
        },
{
    let plain = a.options.access.flag() | FILE_FLAG_OVERLAPPED;
    assert((plain | FILE_FLAG_FIRST_PIPE_INSTANCE) | FILE_FLAG_FIRST_PIPE_INSTANCE == plain
        | FILE_FLAG_FIRST_PIPE_INSTANCE) by (bit_vector);
}

/// A client's request is for an existing pipe with that name, with overlapped operations and
/// nothing shared. It asks for all that reading takes exactly if the client may read, for all that
/// writing takes exactly if it may write, and for no access beyond these; for write-through and an
/// inherited handle exactly if they were configured.
pub proof fn client_request_asks_for_what_was_configured(
    request: OpenPipe,
    addr: Seq<u16>,
    options: ConnectOptionsView,
)
    requires
        opens(request, addr, options),
    ensures
        request.name@.len() == addr.len() + 1,
        forall|i: int| 0 <= i < addr.len() ==> #[trigger] request.name@[i] == addr[i],
        request.name@[addr.len() as int] == 0,
        request.desired_access & FILE_GENERIC_READ == FILE_GENERIC_READ <==> options.read,
        request.desired_access & FILE_GENERIC_WRITE == FILE_GENERIC_WRITE <==> options.write,
        request.desired_access & !(FILE_GENERIC_READ | FILE_GENERIC_WRITE) == 0,
        !options.read && !options.write ==> request.desired_access == 0,
        !options.write ==> request.desired_access & !FILE_GENERIC_READ == 0,
        !options.read ==> request.desired_access & !FILE_GENERIC_WRITE == 0,
        request.share_mode == 0,
        request.creation_disposition == OPEN_EXISTING,
        request.flags & FILE_FLAG_OVERLAPPED != 0,
        request.flags & FILE_FLAG_WRITE_THROUGH != 0 <==> options.write_through,
        request.flags & !(FILE_FLAG_OVERLAPPED | FILE_FLAG_WRITE_THROUGH) == 0,
        request.security is Some <==> options.inherit_handle,
        request.security matches Some(security) ==> security.inherit_handle
            && security.descriptor is None,
{
    let access = request.desired_access;
    let read = options.read;
    let write = options.write;
    assert({
        &&& access & FILE_GENERIC_READ == FILE_GENERIC_READ <==> read
        &&& access & FILE_GENERIC_WRITE == FILE_GENERIC_WRITE <==> write
        &&& access & !(FILE_GENERIC_READ | FILE_GENERIC_WRITE) == 0
        &&& !write ==> access & !FILE_GENERIC_READ == 0
        &&& !read ==> access & !FILE_GENERIC_WRITE == 0
    }) by (bit_vector)
        requires
            access == if read && write {
                FILE_GENERIC_READ | FILE_GENERIC_WRITE
            } else if read {
                FILE_GENERIC_READ
            } else if write {
                FILE_GENERIC_WRITE
            } else {
                0
            },
    ;
    let flags = request.flags;
    let through = options.write_through;
    assert({
        &&& flags & FILE_FLAG_OVERLAPPED != 0
        &&& flags & FILE_FLAG_WRITE_THROUGH != 0 <==> through
        &&& flags & !(FILE_FLAG_OVERLAPPED | FILE_FLAG_WRITE_THROUGH) == 0
    }) by (bit_vector)
        requires
            flags == if through {
                FILE_FLAG_OVERLAPPED | FILE_FLAG_WRITE_THROUGH
            } else {
                FILE_FLAG_OVERLAPPED
            },
    ;
}

/// Three codes, and no others, mean the end of the pipe to a reader, who then has read nothing;
/// any other error stays what it is.
pub proof fn three_codes_mean_the_end_of_the_pipe(code: Option<i32>, error: io::Error)
    ensures
        ({
            let result = (OsFailure { code, error }).as_read();
            if code == Some(ERROR_BROKEN_PIPE) || code == Some(ERROR_OPERATION_ABORTED) || code
                == Some(ERROR_HANDLE_EOF) {
                result == Ok::<usize, io::Error>(0)
            } else {
                result == Err::<usize, io::Error>(error)
            }
        }),
        read_of_error(error) == (OsFailure { code: os_code(error), error }).as_read(),
{
}

/// The completions of reads and of waits for clients are delivered to readers, those of writes to
/// writers. So a read and a write on one pipe do not wake each other.
pub proof fn completions_go_to_their_side(kind: OpKind)
    ensures
        kind == OpKind::Read || kind == OpKind::Connect ==> kind.side() == Side::Read,
        kind == OpKind::Write ==> kind.side() == Side::Write,
{
}

/// What was read is copied to the front of the caller's buffer, byte by byte, as far as both
/// reach; the rest of the buffer is as it was.
pub proof fn copying_fills_the_front(dst: Seq<u8>, src: Seq<u8>, bytes: int, i: int)
    requires
        0 <= bytes <= src.len(),
    ensures
        ({
            let copied = smaller(bytes, dst.len() as int);
            let after = overwritten(dst, src, copied);
            &&& copied <= bytes
            &&& copied <= dst.len()
            &&& copied == bytes || copied == dst.len()
            &&& after.len() == dst.len()
            &&& 0 <= i < copied ==> after[i] == src[i]
            &&& copied <= i < dst.len() ==> after[i] == dst[i]
        }),
{
}

/// A read and a write through borrowed buffers have places of their own, and none of them is that
/// of the flush.
pub proof fn directions_are_apart<H, T>(state: FuturesIoState<H, T>, dir: DirState<H>)
    ensures
        state.dir(Side::Read) == state.read,
        state.dir(Side::Write) == state.write,
        state.with(Side::Read, dir) == (FuturesIoState { read: dir, ..state }),
        state.with(Side::Write, dir) == (FuturesIoState { write: dir, ..state }),
{
}

/// A character is one code unit, its number, or two, a high and a low surrogate that hold its
/// number above 0x10000.
pub proof fn code_units_hold_the_character(c: char)
    ensures
        ({
            let units = utf16_units(c);
            let code = c as int;
            if units.len() == 1 {
                units[0] == code && !(0xD800 <= code < 0xE000)
            } else {
                &&& units.len() == 2
                &&& 0xD800 <= units[0] < 0xDC00
                &&& 0xDC00 <= units[1] < 0xE000
                &&& code == 0x10000 + (units[0] - 0xD800) * 0x400 + (units[1] - 0xDC00)
            }
        }),
{
}

/// Text is encoded character by character: the encoding of two texts put together is that of the
/// one followed by that of the other, and a text of one character is its code units.
pub proof fn text_is_encoded_piece_by_piece(a: Seq<char>, b: Seq<char>)
    ensures
        utf16(a + b) == utf16(a) + utf16(b),
        a.len() == 0 ==> utf16(a).len() == 0,
        a.len() == 1 ==> utf16(a) == utf16_units(a[0]),
    decreases b.len(),
{
    if b.len() == 0 {
        assert(a + b =~= a);
        assert(utf16(a) + utf16(b) =~= utf16(a));
    } else {
        text_is_encoded_piece_by_piece(a, b.drop_last());
        assert((a + b).drop_last() =~= a + b.drop_last());
        assert((a + b).last() == b.last());
        assert(utf16(a) + utf16(b.drop_last()) + utf16_units(b.last()) =~= utf16(a) + utf16(b));
    }
    if a.len() == 1 {
        assert(a.drop_last() =~= Seq::empty());
        reveal_with_fuel(utf16, 2);
        assert(Seq::<u16>::empty() + utf16_units(a[0]) =~= utf16_units(a[0]));
    }
}

} // verus!
