//! Configuration of named-pipe endpoints.

use crate::win32::{
    FILE_FLAG_OVERLAPPED, FILE_FLAG_WRITE_THROUGH, FILE_GENERIC_READ, FILE_GENERIC_WRITE,
    PIPE_ACCESS_DUPLEX, PIPE_ACCESS_INBOUND, PIPE_ACCESS_OUTBOUND, PIPE_READMODE_BYTE,
    PIPE_READMODE_MESSAGE, PIPE_TYPE_BYTE, PIPE_TYPE_MESSAGE, PIPE_UNLIMITED_INSTANCES,
};
use std::io;
use vstd::prelude::*;

verus! {

/// Wire format and read-side mode of a named pipe. Of the four combinations of the two, the one
/// that Windows rejects (a byte stream that is read by messages) has no variant.
#[derive(Debug, Clone, Copy, PartialEq, Eq, Structural)]
pub enum PipeMode {
    /// A byte stream in both directions. The default.
    Byte,
    /// Messages on the wire, read as a byte stream.
    MessageStreamRead,
    /// Messages on the wire, one of which each read takes.
    Message,
}

impl PipeMode {
    /// Messages go over the wire.
    pub open spec fn sends_messages(self) -> bool {
        self != PipeMode::Byte
    }

    /// A read takes one message.
    pub open spec fn reads_messages(self) -> bool {
        self == PipeMode::Message
    }

    /// The type and read-mode bits of this mode.
    pub open spec fn flags(self) -> u32 {
        let wire = if self.sends_messages() {
            PIPE_TYPE_MESSAGE
        } else {
            PIPE_TYPE_BYTE
        };
        let read = if self.reads_messages() {
            PIPE_READMODE_MESSAGE
        } else {
            PIPE_READMODE_BYTE
        };
        wire | read
    }

    /// Returns the type and read-mode bits that the creation of a pipe takes.
    pub fn to_flags(self) -> (flags: u32)
        ensures
            flags == self.flags(),
    {
        match self {
            PipeMode::Byte => PIPE_TYPE_BYTE | PIPE_READMODE_BYTE,
            PipeMode::MessageStreamRead => PIPE_TYPE_MESSAGE | PIPE_READMODE_BYTE,
            PipeMode::Message => PIPE_TYPE_MESSAGE | PIPE_READMODE_MESSAGE,
        }
    }
}

impl Default for PipeMode {
    /// A byte stream in both directions.
    fn default() -> (mode: PipeMode)
        ensures
            mode == PipeMode::Byte,
    {
        PipeMode::Byte
    }
}

/// Direction of the data through a named pipe, as the server sees it.
#[derive(Debug, Clone, Copy, PartialEq, Eq, Structural)]
pub enum PipeAccess {
    /// The server only reads.
    Inbound,
    /// The server only writes.
    Outbound,
    /// Both directions. The default.
    Duplex,
}

impl PipeAccess {
    /// The access bits of this direction.
    pub open spec fn flag(self) -> u32 {
        match self {
            PipeAccess::Inbound => PIPE_ACCESS_INBOUND,
            PipeAccess::Outbound => PIPE_ACCESS_OUTBOUND,
            PipeAccess::Duplex => PIPE_ACCESS_DUPLEX,
        }
    }

    /// Returns the access bits that the creation of a pipe takes.
    pub fn to_flag(self) -> (flag: u32)
        ensures
            flag == self.flag(),
    {
        match self {
            PipeAccess::Inbound => PIPE_ACCESS_INBOUND,
            PipeAccess::Outbound => PIPE_ACCESS_OUTBOUND,
            PipeAccess::Duplex => PIPE_ACCESS_DUPLEX,
        }
    }
}

impl Default for PipeAccess {
    /// Both directions.
    fn default() -> (access: PipeAccess)
        ensures
            access == PipeAccess::Duplex,
    {
        PipeAccess::Duplex
    }
}

/// Server-side configuration of a pipe.
#[derive(Debug, Clone, PartialEq, Eq)]
#[non_exhaustive]
pub struct NamedPipeOpenOptions {
    access: PipeAccess,
    max_instances: u32,
    out_buffer_size: u32,
    in_buffer_size: u32,
    security_descriptor: Option<Box<[u8]>>,
    inherit_handle: bool,
}

/// Server-side configuration, with the security descriptor as a sequence of bytes.
#[verifier::ext_equal]
pub struct OpenOptionsView {
    pub access: PipeAccess,
    pub max_instances: u32,
    pub out_buffer_size: u32,
    pub in_buffer_size: u32,
    pub security_descriptor: Option<Seq<u8>>,
    pub inherit_handle: bool,
}

impl View for NamedPipeOpenOptions {
    type V = OpenOptionsView;

    closed spec fn view(&self) -> OpenOptionsView {
        OpenOptionsView {
            access: self.access,
            max_instances: self.max_instances,
            out_buffer_size: self.out_buffer_size,
            in_buffer_size: self.in_buffer_size,
            security_descriptor: match self.security_descriptor {
                Some(descriptor) => Some(descriptor@),
                None => None,
            },
            inherit_handle: self.inherit_handle,
        }
    }
}

impl OpenOptionsView {
    /// Both directions, unlimited instances, buffers of 64 KiB, no security descriptor, handles
    /// that are not inherited.
    pub open spec fn default_options() -> OpenOptionsView {
        OpenOptionsView {
            access: PipeAccess::Duplex,
            max_instances: PIPE_UNLIMITED_INSTANCES,
            out_buffer_size: 65536,
            in_buffer_size: 65536,
            security_descriptor: None,
            inherit_handle: false,
        }
    }
}

impl NamedPipeOpenOptions {
    /// Returns the default options: both directions, unlimited instances, buffers of 64 KiB, no
    /// security descriptor, handles that are not inherited.
    pub fn new() -> (options: NamedPipeOpenOptions)
        ensures
            options@ == OpenOptionsView::default_options(),
    {
        NamedPipeOpenOptions {
            access: PipeAccess::Duplex,
            max_instances: PIPE_UNLIMITED_INSTANCES,
            out_buffer_size: 65536,
            in_buffer_size: 65536,
            security_descriptor: None,
            inherit_handle: false,
        }
    }

    /// Sets which directions the server side may use.
    pub fn access(self, access: PipeAccess) -> (options: NamedPipeOpenOptions)
        ensures
            options@ == (OpenOptionsView { access, ..self@ }),
    {
        let mut options = self;
        options.access = access;
        options
    }

    /// Sets the maximum number of pipe instances.
    pub fn max_instances(self, instances: u32) -> (options: NamedPipeOpenOptions)
        ensures
            options@ == (OpenOptionsView { max_instances: instances, ..self@ }),
    {
        let mut options = self;
        options.max_instances = instances;
        options
    }

    /// Sets the size hint for the buffer from server to client, in bytes.
    pub fn out_buffer_size(self, size: u32) -> (options: NamedPipeOpenOptions)
        ensures
            options@ == (OpenOptionsView { out_buffer_size: size, ..self@ }),
    {
        let mut options = self;
        options.out_buffer_size = size;
        options
    }

    /// Sets the size hint for the buffer from client to server, in bytes.
    pub fn in_buffer_size(self, size: u32) -> (options: NamedPipeOpenOptions)
        ensures
            options@ == (OpenOptionsView { in_buffer_size: size, ..self@ }),
    {
        let mut options = self;
        options.in_buffer_size = size;
        options
    }

    /// Sets a security descriptor, given by the bytes of its self-relative form. The bytes are
    /// not looked at: a descriptor that is malformed makes the creation of the pipe fail.
    pub fn security_descriptor(self, sd: Box<[u8]>) -> (options: NamedPipeOpenOptions)
        ensures
            options@ == (OpenOptionsView { security_descriptor: Some(sd@), ..self@ }),
    {
        let mut options = self;
        options.security_descriptor = Some(sd);
        options
    }

    /// Sets the security descriptor to what the operating system made of a descriptor string.
    /// If it rejected the string, its error is returned.
    pub fn security_descriptor_sddl(self, converted: io::Result<Box<[u8]>>) -> (options: io::Result<
        NamedPipeOpenOptions,
    >)
        ensures
            match converted {
                Ok(sd) => options matches Ok(o) && o@ == (OpenOptionsView {
                    security_descriptor: Some(sd@),
                    ..self@
                }),
                Err(e) => options == Err::<NamedPipeOpenOptions, io::Error>(e),
            },
    {
        match converted {
            Ok(sd) => Ok(self.security_descriptor(sd)),
            Err(e) => Err(e),
        }
    }

    /// Sets whether child processes may inherit the handle of a pipe instance.
    pub fn inherit_handle(self, on: bool) -> (options: NamedPipeOpenOptions)
        ensures
            options@ == (OpenOptionsView { inherit_handle: on, ..self@ }),
    {
        let mut options = self;
        options.inherit_handle = on;
        options
    }

    /// Returns the configured direction.
    pub fn get_access(&self) -> (access: PipeAccess)
        ensures
            access == self@.access,
    {
        self.access
    }

    /// Returns the configured maximum number of pipe instances.
    pub fn get_max_instances(&self) -> (instances: u32)
        ensures
            instances == self@.max_instances,
    {
        self.max_instances
    }

    /// Returns the configured size hint for the buffer from server to client.
    pub fn get_out_buffer_size(&self) -> (size: u32)
        ensures
            size == self@.out_buffer_size,
    {
        self.out_buffer_size
    }

    /// Returns the configured size hint for the buffer from client to server.
    pub fn get_in_buffer_size(&self) -> (size: u32)
        ensures
            size == self@.in_buffer_size,
    {
        self.in_buffer_size
    }

    /// Returns the configured security descriptor, if any.
    pub fn get_security_descriptor(&self) -> (sd: Option<&[u8]>)
        ensures
            match sd {
                Some(bytes) => self@.security_descriptor == Some(bytes@),
                None => self@.security_descriptor is None,
            },
    {
        match &self.security_descriptor {
            Some(sd) => Some(&**sd),
            None => None,
        }
    }

    /// Returns whether child processes may inherit the handle of a pipe instance.
    pub fn get_inherit_handle(&self) -> (on: bool)
        ensures
            on == self@.inherit_handle,
    {
        self.inherit_handle
    }
}

impl Default for NamedPipeOpenOptions {
    /// The options of [`NamedPipeOpenOptions::new`].
    fn default() -> (options: NamedPipeOpenOptions)
        ensures
            options@ == OpenOptionsView::default_options(),
    {
        NamedPipeOpenOptions::new()
    }
}

/// Client-side configuration of a pipe. A security descriptor has no place in it: opening what
/// exists ignores one.
#[derive(Debug, Clone, Copy, PartialEq, Eq, Structural)]
#[non_exhaustive]
pub struct NamedPipeConnectOptions {
    read: bool,
    write: bool,
    write_through: bool,
    inherit_handle: bool,
}

/// Client-side configuration, as it is seen from outside.
pub struct ConnectOptionsView {
    pub read: bool,
    pub write: bool,
    pub write_through: bool,
    pub inherit_handle: bool,
}

impl View for NamedPipeConnectOptions {
    type V = ConnectOptionsView;

    closed spec fn view(&self) -> ConnectOptionsView {
        ConnectOptionsView {
            read: self.read,
            write: self.write,
            write_through: self.write_through,
            inherit_handle: self.inherit_handle,
        }
    }
}

impl ConnectOptionsView {
    /// Reading and writing, no write-through, a handle that is not inherited.
    pub open spec fn default_options() -> ConnectOptionsView {
        ConnectOptionsView { read: true, write: true, write_through: false, inherit_handle: false }
    }

    /// The access that the client asks for.
    pub open spec fn desired_access(self) -> u32 {
        match (self.read, self.write) {
            (true, true) => FILE_GENERIC_READ | FILE_GENERIC_WRITE,
            (true, false) => FILE_GENERIC_READ,
            (false, true) => FILE_GENERIC_WRITE,
            (false, false) => 0,
        }
    }

    /// The file flags that the client opens the pipe with.
    pub open spec fn flags(self) -> u32 {
        if self.write_through {
            FILE_FLAG_OVERLAPPED | FILE_FLAG_WRITE_THROUGH
        } else {
            FILE_FLAG_OVERLAPPED
        }
    }
}

impl NamedPipeConnectOptions {
    /// Returns the default options: reading and writing, no write-through, a handle that is not
    /// inherited.
    pub fn new() -> (options: NamedPipeConnectOptions)
        ensures
            options@ == ConnectOptionsView::default_options(),
    {
        NamedPipeConnectOptions {
            read: true,
            write: true,
            write_through: false,
            inherit_handle: false,
        }
    }

    /// Sets whether the client may read from the pipe.
    pub fn read(self, read: bool) -> (options: NamedPipeConnectOptions)
        ensures
            options@ == (ConnectOptionsView { read, ..self@ }),
    {
        let mut options = self;
        options.read = read;
        options
    }

    /// Sets whether the client may write to the pipe.
    pub fn write(self, write: bool) -> (options: NamedPipeConnectOptions)
        ensures
            options@ == (ConnectOptionsView { write, ..self@ }),
    {
        let mut options = self;
        options.write = write;
        options
    }

    /// Sets whether writes return only when the data was transmitted to the other end.
    pub fn write_through(self, on: bool) -> (options: NamedPipeConnectOptions)
        ensures
            options@ == (ConnectOptionsView { write_through: on, ..self@ }),
    {
        let mut options = self;
        options.write_through = on;
        options
    }

    /// Sets whether child processes may inherit the handle.
    pub fn inherit_handle(self, on: bool) -> (options: NamedPipeConnectOptions)
        ensures
            options@ == (ConnectOptionsView { inherit_handle: on, ..self@ }),
    {
        let mut options = self;
        options.inherit_handle = on;
        options
    }

    /// Returns whether the client may read from the pipe.
    pub fn get_read(&self) -> (read: bool)
        ensures
            read == self@.read,
    {
        self.read
    }

    /// Returns whether the client may write to the pipe.
    pub fn get_write(&self) -> (write: bool)
        ensures
            write == self@.write,
    {
        self.write
    }

    /// Returns whether writes return only when the data was transmitted.
    pub fn get_write_through(&self) -> (on: bool)
        ensures
            on == self@.write_through,
    {
        self.write_through
    }

    /// Returns whether child processes may inherit the handle.
    pub fn get_inherit_handle(&self) -> (on: bool)
        ensures
            on == self@.inherit_handle,
    {
        self.inherit_handle
    }

    /// Returns the access that the client asks for.
    pub fn desired_access(&self) -> (access: u32)
        ensures
            access == self@.desired_access(),
    {
        match (self.read, self.write) {
            (true, true) => FILE_GENERIC_READ | FILE_GENERIC_WRITE,
            (true, false) => FILE_GENERIC_READ,
            (false, true) => FILE_GENERIC_WRITE,
            (false, false) => 0,
        }
    }

    /// Returns the file flags that the client opens the pipe with.
    pub fn custom_flags(&self) -> (flags: u32)
        ensures
            flags == self@.flags(),
    {
        let mut flags: u32 = FILE_FLAG_OVERLAPPED;
        if self.write_through {
            flags = flags | FILE_FLAG_WRITE_THROUGH;
        }
        flags
    }
}

impl Default for NamedPipeConnectOptions {
    /// The options of [`NamedPipeConnectOptions::new`].
    fn default() -> (options: NamedPipeConnectOptions)
        ensures
            options@ == ConnectOptionsView::default_options(),
    {
        NamedPipeConnectOptions::new()
    }
}

} // verus!
