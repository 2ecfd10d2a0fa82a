//! Options, requests and error codes of named pipes.

use async_io::listener::NamedPipeListener;
use async_io::named_pipe::{
    NamedPipeConnectOptions, NamedPipeOpenOptions, PipeAccess, PipeMode,
};
use async_io::operation::{OpKind, OpState, OwnedOp, Submission};
use async_io::os_error::{map_read_error, OsFailure};
use async_io::source::Side;
use async_io::stream::{copy_out, DirState, FuturesIoState, NamedPipeStream};
use async_io::wide::{nul_terminated, wide_with_nul};
use async_io::win32;
use std::io;
use windows_sys::Win32::Foundation as wf;
use windows_sys::Win32::Storage::FileSystem as wsf;
use windows_sys::Win32::System::Pipes as wsp;

type Stream = NamedPipeStream<u8, u8>;

#[test]
fn values_are_those_of_windows() {
    assert_eq!(win32::PIPE_TYPE_BYTE, wsp::PIPE_TYPE_BYTE);
    assert_eq!(win32::PIPE_TYPE_MESSAGE, wsp::PIPE_TYPE_MESSAGE);
    assert_eq!(win32::PIPE_READMODE_BYTE, wsp::PIPE_READMODE_BYTE);
    assert_eq!(win32::PIPE_READMODE_MESSAGE, wsp::PIPE_READMODE_MESSAGE);
    assert_eq!(win32::PIPE_UNLIMITED_INSTANCES, wsp::PIPE_UNLIMITED_INSTANCES);
    assert_eq!(win32::PIPE_ACCESS_INBOUND, wsf::PIPE_ACCESS_INBOUND);
    assert_eq!(win32::PIPE_ACCESS_OUTBOUND, wsf::PIPE_ACCESS_OUTBOUND);
    assert_eq!(win32::PIPE_ACCESS_DUPLEX, wsf::PIPE_ACCESS_DUPLEX);
    assert_eq!(win32::FILE_FLAG_FIRST_PIPE_INSTANCE, wsf::FILE_FLAG_FIRST_PIPE_INSTANCE);
    assert_eq!(win32::FILE_FLAG_OVERLAPPED, wsf::FILE_FLAG_OVERLAPPED);
    assert_eq!(win32::FILE_FLAG_WRITE_THROUGH, wsf::FILE_FLAG_WRITE_THROUGH);
    assert_eq!(win32::FILE_GENERIC_READ, wsf::FILE_GENERIC_READ);
    assert_eq!(win32::FILE_GENERIC_WRITE, wsf::FILE_GENERIC_WRITE);
    assert_eq!(win32::OPEN_EXISTING, wsf::OPEN_EXISTING);
    assert_eq!(win32::ERROR_BROKEN_PIPE as u32, wf::ERROR_BROKEN_PIPE);
    assert_eq!(win32::ERROR_OPERATION_ABORTED as u32, wf::ERROR_OPERATION_ABORTED);
    assert_eq!(win32::ERROR_HANDLE_EOF as u32, wf::ERROR_HANDLE_EOF);
    assert_eq!(win32::ERROR_MORE_DATA as u32, wf::ERROR_MORE_DATA);
}

#[test]
fn pipe_mode_flags() {
    assert_eq!(PipeMode::default(), PipeMode::Byte);
    assert_eq!(PipeMode::Byte.to_flags(), 0);
    assert_eq!(PipeMode::MessageStreamRead.to_flags(), 4);
    assert_eq!(PipeMode::Message.to_flags(), 6);
}

#[test]
fn pipe_access_flags() {
    assert_eq!(PipeAccess::default(), PipeAccess::Duplex);
    assert_eq!(PipeAccess::Inbound.to_flag(), 1);
    assert_eq!(PipeAccess::Outbound.to_flag(), 2);
    assert_eq!(PipeAccess::Duplex.to_flag(), 3);
}

#[test]
fn open_options_defaults() {
    let options = NamedPipeOpenOptions::new();
    assert_eq!(options.get_access(), PipeAccess::Duplex);
    assert_eq!(options.get_max_instances(), 255);
    assert_eq!(options.get_out_buffer_size(), 65536);
    assert_eq!(options.get_in_buffer_size(), 65536);
    assert_eq!(options.get_security_descriptor(), None);
    assert!(!options.get_inherit_handle());
    assert_eq!(options, NamedPipeOpenOptions::default());
}

#[test]
fn open_options_setters() {
    let options = NamedPipeOpenOptions::new()
        .access(PipeAccess::Inbound)
        .max_instances(7)
        .out_buffer_size(1)
        .in_buffer_size(2)
        .security_descriptor(vec![1, 2, 3].into_boxed_slice())
        .inherit_handle(true);
    assert_eq!(options.get_access(), PipeAccess::Inbound);
    assert_eq!(options.get_max_instances(), 7);
    assert_eq!(options.get_out_buffer_size(), 1);
    assert_eq!(options.get_in_buffer_size(), 2);
    assert_eq!(options.get_security_descriptor(), Some(&[1u8, 2, 3][..]));
    assert!(options.get_inherit_handle());
}

#[test]
fn converted_descriptor_is_stored() {
    let options = NamedPipeOpenOptions::new()
        .security_descriptor_sddl(Ok(vec![4, 5].into_boxed_slice()))
        .unwrap();
    assert_eq!(options.get_security_descriptor(), Some(&[4u8, 5][..]));
    let builder = NamedPipeListener::builder(vec![65])
        .security_descriptor_sddl(Ok(vec![6].into_boxed_slice()))
        .unwrap();
    let mut listener = builder.bind().unwrap();
    assert_eq!(listener.accept().security.unwrap().descriptor, Some(&[6u8][..]));
}

#[test]
fn rejected_descriptor_string_is_an_error() {
    let rejected = || Err(io::Error::from_raw_os_error(87));
    let err = NamedPipeOpenOptions::new().security_descriptor_sddl(rejected()).unwrap_err();
    assert_eq!(err.raw_os_error(), Some(87));
    let err = NamedPipeListener::builder(vec![65])
        .security_descriptor_sddl(rejected())
        .unwrap_err();
    assert_eq!(err.raw_os_error(), Some(87));
}

#[test]
fn connect_options() {
    let options = NamedPipeConnectOptions::new();
    assert_eq!(options, NamedPipeConnectOptions::default());
    assert!(options.get_read() && options.get_write());
    assert!(!options.get_write_through() && !options.get_inherit_handle());
    assert_eq!(options.custom_flags(), 0x4000_0000);
    assert_eq!(options.write_through(true).custom_flags(), 0xC000_0000);
    assert!(options.write_through(true).get_write_through());
    assert!(options.inherit_handle(true).get_inherit_handle());

    assert_eq!(options.desired_access(), wsf::FILE_GENERIC_READ | wsf::FILE_GENERIC_WRITE);
    assert_eq!(options.write(false).desired_access(), wsf::FILE_GENERIC_READ);
    assert_eq!(options.read(false).desired_access(), wsf::FILE_GENERIC_WRITE);
    assert_eq!(options.read(false).write(false).desired_access(), 0);
}

#[test]
fn listener_requests() {
    let mut listener = NamedPipeListener::bind(vec![80, 81], PipeMode::Message, None).unwrap();
    let request = listener.accept();
    assert_eq!(request.name, [80, 81, 0]);
    assert_eq!(request.open_mode, 0x4008_0003);
    assert_eq!(request.pipe_mode, 6);
    assert_eq!(request.max_instances, 255);
    assert_eq!(request.out_buffer_size, 65536);
    assert_eq!(request.in_buffer_size, 65536);
    assert_eq!(request.default_timeout, 0);
    assert!(request.security.is_none());
    assert_eq!(listener.accept().open_mode, 0x4000_0003);
    assert_eq!(listener.accept().open_mode, 0x4000_0003);
}

#[test]
fn builder_sets_each_option() {
    let mut listener = NamedPipeListener::builder(vec![80])
        .pipe_mode(PipeMode::MessageStreamRead)
        .access(PipeAccess::Outbound)
        .max_instances(3)
        .out_buffer_size(10)
        .in_buffer_size(20)
        .security_descriptor(vec![1].into_boxed_slice())
        .inherit_handle(true)
        .bind()
        .unwrap();
    let request = listener.accept();
    assert_eq!(request.pipe_mode, 4);
    assert_eq!(request.open_mode, 0x4008_0002);
    assert_eq!(request.max_instances, 3);
    assert_eq!(request.out_buffer_size, 10);
    assert_eq!(request.in_buffer_size, 20);
    let security = request.security.unwrap();
    assert_eq!(security.descriptor, Some(&[1u8][..]));
    assert!(security.inherit_handle);
}

#[test]
fn security_attributes_only_where_needed() {
    let accept = |options: NamedPipeOpenOptions| {
        let mut listener =
            NamedPipeListener::bind(vec![80], PipeMode::Byte, Some(options)).unwrap();
        let security = listener.accept().security;
        security.map(|s| (s.descriptor.map(|d| d.to_vec()), s.inherit_handle))
    };
    assert_eq!(accept(NamedPipeOpenOptions::new()), None);
    assert_eq!(accept(NamedPipeOpenOptions::new().inherit_handle(true)), Some((None, true)));
    assert_eq!(
        accept(NamedPipeOpenOptions::new().security_descriptor(vec![9].into_boxed_slice())),
        Some((Some(vec![9]), false))
    );
}

#[test]
fn client_requests() {
    let request = Stream::connect(vec![80, 81]);
    assert_eq!(request.name, [80, 81, 0]);
    assert_eq!(request.desired_access, 0x0012_019F);
    assert_eq!(request.share_mode, 0);
    assert!(request.security.is_none());
    assert_eq!(request.creation_disposition, 3);
    assert_eq!(request.flags, 0x4000_0000);

    let options = NamedPipeConnectOptions::new().write(false).inherit_handle(true);
    let request = Stream::connect_with_options(vec![80], options);
    assert_eq!(request.desired_access, 0x0012_0089);
    let security = request.security.unwrap();
    assert!(security.inherit_handle);
    assert_eq!(security.descriptor, None);
}

#[test]
fn wide_strings() {
    for text in ["", "D:(A;;GA;;;WD)", "\u{e4}\u{20ac}\u{ffff}", "\u{10000}x\u{1f600}\u{10ffff}"] {
        let expected: Vec<u16> = text.encode_utf16().chain(Some(0)).collect();
        assert_eq!(wide_with_nul(text), expected);
    }
    assert_eq!(wide_with_nul("\u{1f600}"), [0xD83D, 0xDE00, 0]);
    assert_eq!(nul_terminated(vec![1, 0, 2]), [1, 0, 2, 0]);
}

#[test]
fn end_of_pipe_is_a_read_of_nothing() {
    for code in [109, 995, 38] {
        assert_eq!(map_read_error(io::Error::from_raw_os_error(code)).unwrap(), 0);
    }
    for code in [234, 5, 232] {
        let err = map_read_error(io::Error::from_raw_os_error(code)).unwrap_err();
        assert_eq!(err.raw_os_error(), Some(code));
    }
    let err = map_read_error(io::Error::from(io::ErrorKind::Other)).unwrap_err();
    assert_eq!(err.kind(), io::ErrorKind::Other);

    let failure = OsFailure::new(io::Error::from_raw_os_error(109));
    assert_eq!(failure.code, Some(109));
    assert_eq!(failure.read_result().unwrap(), 0);
}

#[test]
fn finishing_an_operation() {
    let done = OpKind::Read.finish(Ok(3), "buf");
    assert_eq!((done.result.unwrap(), done.filled, done.buf), (3, Some(3), "buf"));
    let eof = || Err(io::Error::from_raw_os_error(109));
    let done = OpKind::Read.finish(eof(), "buf");
    assert_eq!((done.result.unwrap(), done.filled, done.buf), (0, Some(0), "buf"));
    let done = OpKind::Read.finish(Err(io::Error::from_raw_os_error(5)), "buf");
    assert_eq!(done.result.unwrap_err().raw_os_error(), Some(5));
    assert_eq!((done.filled, done.buf), (None, "buf"));
    for kind in [OpKind::Write, OpKind::Connect] {
        let done = kind.finish(Ok(3), "buf");
        assert_eq!((done.result.unwrap(), done.filled, done.buf), (3, None, "buf"));
        let done = kind.finish(eof(), "buf");
        assert_eq!(done.result.unwrap_err().raw_os_error(), Some(109));
        assert_eq!((done.filled, done.buf), (None, "buf"));
    }
    assert_eq!(OpKind::Read.completion_side(), Side::Read);
    assert_eq!(OpKind::Write.completion_side(), Side::Write);
    assert_eq!(OpKind::Connect.completion_side(), Side::Read);
}

#[test]
fn rejected_submission_ends_the_operation() {
    let mut op: OwnedOp<Vec<u8>, u8> = OwnedOp::new(OpKind::Write, vec![1]);
    op.state = OpState::Submitting;
    let error = io::Error::from_raw_os_error(232);
    let done = op.submitted(Submission::Failed { error, buf: vec![1] }).unwrap();
    assert_eq!(done.result.unwrap_err().raw_os_error(), Some(232));
    assert_eq!(done.buf, [1]);
    assert!(matches!(op.state, OpState::Done));
    assert!(op.in_flight().is_none());
    assert_eq!(op.cancel(), None);
}

#[test]
fn operation_in_flight_is_cancelled() {
    let mut op: OwnedOp<Vec<u8>, u8> = OwnedOp::new(OpKind::Read, vec![]);
    op.state = OpState::Submitting;
    assert!(op.submitted(Submission::Pending(7)).is_none());
    assert_eq!(op.in_flight(), Some(&7));
    assert_eq!(op.cancel(), Some(7));
    let op: OwnedOp<Vec<u8>, u8> = OwnedOp::new(OpKind::Read, vec![]);
    assert_eq!(op.cancel(), None);
}

#[test]
fn what_was_read_is_copied_as_far_as_there_is_room() {
    let filled = vec![1, 2, 3, 4];
    let mut buf = [9u8; 6];
    assert_eq!(copy_out(4, &filled, &mut buf), 4);
    assert_eq!(buf, [1, 2, 3, 4, 9, 9]);
    let mut buf = [9u8; 3];
    assert_eq!(copy_out(4, &filled, &mut buf), 3);
    assert_eq!(buf, [1, 2, 3]);
    let mut buf = [9u8; 3];
    assert_eq!(copy_out(1, &filled, &mut buf), 1);
    assert_eq!(buf, [1, 9, 9]);
}

#[test]
fn reads_that_end_at_once() {
    let mut state: FuturesIoState<u8, u8> = FuturesIoState::new();
    let mut buf = [0u8; 2];
    let submission = Submission::Complete { bytes: 3, buf: vec![7, 8, 9] };
    assert_eq!(state.read_submitted(submission, &mut buf).unwrap().unwrap(), 2);
    assert_eq!(buf, [7, 8]);
    let submission =
        Submission::Failed { error: io::Error::from_raw_os_error(38), buf: vec![] };
    assert_eq!(state.read_submitted(submission, &mut buf).unwrap().unwrap(), 0);
    let submission =
        Submission::Failed { error: io::Error::from_raw_os_error(5), buf: vec![] };
    let err = state.read_submitted(submission, &mut buf).unwrap().unwrap_err();
    assert_eq!(err.raw_os_error(), Some(5));
    assert!(matches!(state.read, DirState::Idle));

    let aborted = Err(io::Error::from_raw_os_error(995));
    assert_eq!(
        FuturesIoState::<u8, u8>::read_finish(aborted, vec![], &mut buf).unwrap(),
        0
    );
}

#[test]
fn writes_that_end_at_once() {
    let mut state: FuturesIoState<u8, u8> = FuturesIoState::new();
    let submission = Submission::Complete { bytes: 3, buf: vec![7, 8, 9] };
    assert_eq!(state.write_submitted(submission).unwrap().unwrap(), 3);
    // The end of the pipe is an error to a writer.
    let submission =
        Submission::Failed { error: io::Error::from_raw_os_error(109), buf: vec![] };
    let err = state.write_submitted(submission).unwrap().unwrap_err();
    assert_eq!(err.raw_os_error(), Some(109));
}

#[test]
fn write_in_flight_returns_its_own_result() {
    assert_eq!(FuturesIoState::<u8, u8>::write_finish(Ok(3)).unwrap(), 3);
    let broken = Err(io::Error::from_raw_os_error(109));
    let err = FuturesIoState::<u8, u8>::write_finish(broken).unwrap_err();
    assert_eq!(err.raw_os_error(), Some(109));
}

#[test]
fn flush_ends_with_an_idle_writer() {
    let mut state: FuturesIoState<u8, u8> = FuturesIoState::new();
    assert!(state.write_submitted(Submission::Pending(4)).is_none());
    assert!(state.read_submitted(Submission::Pending(5), &mut []).is_none());
    assert!(!state.flushing());
    assert!(state.flush_task().is_none());
    assert_eq!(state.flush_started(1), None);
    assert!(state.flushing());
    // A flush in progress is joined.
    assert_eq!(state.flush_started(2), Some(2));
    assert_eq!(state.flush_task(), Some(&mut 1));
    assert_eq!(state.flush_done(), Some(4));
    assert!(!state.flushing());
    assert_eq!(state.in_flight(Side::Write), None);
    assert_eq!(state.in_flight(Side::Read), Some(&5));
    assert_eq!(state.flush_done(), None);
}
