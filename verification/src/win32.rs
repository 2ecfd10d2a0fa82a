//! Values of the Windows interface that requests and results are made of.

use vstd::prelude::*;

verus! {

/// The pipe carries a stream of bytes.
pub const PIPE_TYPE_BYTE: u32 = 0;

/// The pipe carries messages.
pub const PIPE_TYPE_MESSAGE: u32 = 4;

/// Reads take a stream of bytes.
pub const PIPE_READMODE_BYTE: u32 = 0;

/// Reads take one message each.
pub const PIPE_READMODE_MESSAGE: u32 = 2;

/// No limit but the system's resources on the number of pipe instances.
pub const PIPE_UNLIMITED_INSTANCES: u32 = 255;

/// The server reads.
pub const PIPE_ACCESS_INBOUND: u32 = 1;

/// The server writes.
pub const PIPE_ACCESS_OUTBOUND: u32 = 2;

/// The server reads and writes.
pub const PIPE_ACCESS_DUPLEX: u32 = 3;

/// Fail if an instance of the pipe exists already.
pub const FILE_FLAG_FIRST_PIPE_INSTANCE: u32 = 0x0008_0000;

/// Operations may be overlapped.
pub const FILE_FLAG_OVERLAPPED: u32 = 0x4000_0000;

/// Writes go through intermediate caches.
pub const FILE_FLAG_WRITE_THROUGH: u32 = 0x8000_0000;

/// All that reading a file needs.
pub const FILE_GENERIC_READ: u32 = 0x0012_0089;

/// All that writing a file needs.
pub const FILE_GENERIC_WRITE: u32 = 0x0012_0116;

/// Open only what exists.
pub const OPEN_EXISTING: u32 = 3;

/// The peer closed the pipe.
pub const ERROR_BROKEN_PIPE: i32 = 109;

/// The operation was cancelled.
pub const ERROR_OPERATION_ABORTED: i32 = 995;

/// The end of the file was reached.
pub const ERROR_HANDLE_EOF: i32 = 38;

/// The message did not fit the buffer.
pub const ERROR_MORE_DATA: i32 = 234;

} // verus!
