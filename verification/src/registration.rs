//! Registration of sources with the poller of the operating system.

use crate::event::Event;
use vstd::prelude::*;

verus! {

/// What is registered with the poller.
#[derive(Debug, Clone, Copy, PartialEq, Eq, Structural)]
pub enum Registration {
    /// A socket, by its raw number. It is not closed while this value is in use.
    Socket(u64),
    /// A waitable handle, by its raw number. It is not closed while this value is in use.
    Handle(usize),
    /// An overlapped file that is attached to the completion port, by the raw number of its
    /// handle.
    File(usize),
}

/// A command to the poller. Sockets and waitable handles are registered in one-shot mode: once
/// an event was reported, none is reported until interest is stated again.
#[derive(Debug, Clone, Copy, PartialEq, Eq, Structural)]
pub enum PollerOp {
    /// Start watching a socket.
    Add { socket: u64, interest: Event },
    /// Start watching a waitable handle.
    AddWaitable { handle: usize, interest: Event },
    /// Tag the completions of a file with a key.
    SetUserKey { file: usize, key: usize },
    /// State the interest in a watched socket.
    Modify { socket: u64, interest: Event },
    /// State the interest in a watched waitable handle.
    ModifyWaitable { handle: usize, interest: Event },
    /// Stop watching a socket.
    Delete { socket: u64 },
    /// Stop watching a waitable handle.
    RemoveWaitable { handle: usize },
    /// Accept no more operations on a file; those in flight still complete.
    Deactivate { file: usize },
    /// Nothing is to be done.
    Nothing,
}

impl Registration {
    /// The command that registers the object under `key`, with no interest yet.
    pub open spec fn add_op(self, key: usize) -> PollerOp {
        let interest = Event { key, readable: false, writable: false };
        match self {
            Registration::Socket(socket) => PollerOp::Add { socket, interest },
            Registration::Handle(handle) => PollerOp::AddWaitable { handle, interest },
            Registration::File(file) => PollerOp::SetUserKey { file, key },
        }
    }

    /// The command that states `interest` in the object. Operations on a file state theirs when
    /// they are submitted, so a file needs none.
    pub open spec fn modify_op(self, interest: Event) -> PollerOp {
        match self {
            Registration::Socket(socket) => PollerOp::Modify { socket, interest },
            Registration::Handle(handle) => PollerOp::ModifyWaitable { handle, interest },
            Registration::File(_) => PollerOp::Nothing,
        }
    }

    /// The command that takes the object off the poller.
    pub open spec fn delete_op(self) -> PollerOp {
        match self {
            Registration::Socket(socket) => PollerOp::Delete { socket },
            Registration::Handle(handle) => PollerOp::RemoveWaitable { handle },
            Registration::File(file) => PollerOp::Deactivate { file },
        }
    }

    /// Creates a registration from a raw socket.
    pub fn new(socket: u64) -> (registration: Registration)
        ensures
            registration == Registration::Socket(socket),
    {
        Registration::Socket(socket)
    }

    /// Creates a registration around a waitable handle.
    pub fn new_waitable(handle: usize) -> (registration: Registration)
        ensures
            registration == Registration::Handle(handle),
    {
        Registration::Handle(handle)
    }

    /// Creates a registration around a file that is already attached to the completion port.
    pub fn new_file(file: usize) -> (registration: Registration)
        ensures
            registration == Registration::File(file),
    {
        Registration::File(file)
    }

    /// Returns the file of a [`Registration::File`], and `None` for sockets and waitable handles.
    pub fn registered_file(&self) -> (file: Option<usize>)
        ensures
            file == match *self {
                Registration::File(file) => Some(file),
                _ => None,
            },
    {
        match *self {
            Registration::File(file) => Some(file),
            _ => None,
        }
    }

    /// Registers the object under `token`.
    pub fn add(&self, token: usize) -> (op: PollerOp)
        ensures
            op == self.add_op(token),
    {
        match *self {
            Registration::Socket(socket) => {
                PollerOp::Add { socket, interest: Event::none(token) }
            },
            Registration::Handle(handle) => {
                PollerOp::AddWaitable { handle, interest: Event::none(token) }
            },
            Registration::File(file) => PollerOp::SetUserKey { file, key: token },
        }
    }

    /// States the interest in the object anew.
    pub fn modify(&self, interest: Event) -> (op: PollerOp)
        ensures
            op == self.modify_op(interest),
    {
        match *self {
            Registration::Socket(socket) => PollerOp::Modify { socket, interest },
            Registration::Handle(handle) => PollerOp::ModifyWaitable { handle, interest },
            Registration::File(_) => PollerOp::Nothing,
        }
    }

    /// Takes the object off the poller.
    pub fn delete(&self) -> (op: PollerOp)
        ensures
            op == self.delete_op(),
    {
        match *self {
            Registration::Socket(socket) => PollerOp::Delete { socket },
            Registration::Handle(handle) => PollerOp::RemoveWaitable { handle },
            Registration::File(file) => PollerOp::Deactivate { file },
        }
    }
}

} // verus!
