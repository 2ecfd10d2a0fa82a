//! Errors of the operating system, and which of them mean the end of a pipe to a reader.

use crate::win32::{ERROR_BROKEN_PIPE, ERROR_HANDLE_EOF, ERROR_OPERATION_ABORTED};
use std::io;
use vstd::prelude::*;

verus! {

/// The error of an I/O operation, [`std::io::Error`]. It is carried about as an opaque value.
#[verifier::external_type_specification]
#[verifier::external_body]
pub struct ExIoError(io::Error);

/// The code that the operating system gave for an error, if the error comes from there.
pub uninterp spec fn os_code(error: io::Error) -> Option<i32>;

/// [`io::Error::raw_os_error`]: the code that the operating system gave, if the error comes from
/// there. It depends on the error alone; which code an error has is not stated.
pub assume_specification[ io::Error::raw_os_error ](error: &io::Error) -> (code: Option<i32>)
    ensures
        code == os_code(*error),
;

/// An error of an I/O operation together with its code.
#[derive(Debug)]
pub struct OsFailure {
    /// The code that the operating system gave, if the error comes from there.
    pub code: Option<i32>,
    /// The error itself.
    pub error: io::Error,
}

/// A read that fails with this code has reached the end of the pipe: the peer closed it, the
/// operation was cancelled, or there is no more to read.
pub open spec fn is_eof(code: Option<i32>) -> bool {
    ||| code == Some(ERROR_BROKEN_PIPE)
    ||| code == Some(ERROR_OPERATION_ABORTED)
    ||| code == Some(ERROR_HANDLE_EOF)
}

impl OsFailure {
    /// What a read returns that failed so: nothing read at the end of the pipe, else the error.
    pub open spec fn as_read(self) -> io::Result<usize> {
        if is_eof(self.code) {
            Ok(0)
        } else {
            Err(self.error)
        }
    }

    /// Asks an error for its code.
    pub fn new(error: io::Error) -> (failure: OsFailure)
        ensures
            failure.error == error,
            failure.code == os_code(error),
    {
        OsFailure { code: error.raw_os_error(), error }
    }

    /// Turns the end of the pipe into a read of nothing; other errors stay.
    pub fn read_result(self) -> (result: io::Result<usize>)
        ensures
            result == self.as_read(),
    {
        match self.code {
            Some(code) => {
                if code == ERROR_BROKEN_PIPE || code == ERROR_OPERATION_ABORTED || code
                    == ERROR_HANDLE_EOF {
                    Ok(0)
                } else {
                    Err(self.error)
                }
            },
            None => Err(self.error),
        }
    }
}

/// What a read returns that failed with `error`.
pub open spec fn read_of_error(error: io::Error) -> io::Result<usize> {
    (OsFailure { code: os_code(error), error }).as_read()
}

/// Turns an error that means the end of the pipe into a read of nothing, as
/// [`OsFailure::read_result`] does for the code that the error holds.
pub fn map_read_error(error: io::Error) -> (result: io::Result<usize>)
    ensures
        result == read_of_error(error),
{
    OsFailure::new(error).read_result()
}

} // verus!
