//! The server endpoint of a named pipe.

use crate::named_pipe::{NamedPipeOpenOptions, OpenOptionsView, PipeAccess, PipeMode};
use crate::wide::nul_terminated;
use crate::win32::{FILE_FLAG_FIRST_PIPE_INSTANCE, FILE_FLAG_OVERLAPPED};
use std::io;
use vstd::prelude::*;

verus! {

/// Security attributes of a handle to create.
#[derive(Debug, Clone, Copy)]
pub struct SecurityAttributes<'a> {
    /// The security descriptor, in its self-relative form; none for the default.
    pub descriptor: Option<&'a [u8]>,
    /// Child processes may inherit the handle.
    pub inherit_handle: bool,
}

/// A request to create an instance of a pipe.
#[derive(Debug, Clone, Copy)]
pub struct CreatePipe<'a> {
    /// The name of the pipe, with a terminating zero.
    pub name: &'a [u16],
    /// The access bits and file flags.
    pub open_mode: u32,
    /// The type and read-mode bits.
    pub pipe_mode: u32,
    /// The maximum number of instances.
    pub max_instances: u32,
    /// The size hint for the buffer from server to client.
    pub out_buffer_size: u32,
    /// The size hint for the buffer from client to server.
    pub in_buffer_size: u32,
    /// The time that clients wait for an instance by default, in milliseconds; 0 leaves it to the
    /// system.
    pub default_timeout: u32,
    /// The security attributes, if they differ from the default.
    pub security: Option<SecurityAttributes<'a>>,
}

/// The server endpoint of a named pipe.
#[derive(Debug)]
pub struct NamedPipeListener {
    name: Vec<u16>,
    pipe_mode: PipeMode,
    options: NamedPipeOpenOptions,
    accepted: bool,
}

/// A listener, as it is seen from outside.
#[verifier::ext_equal]
pub struct ListenerView {
    /// The name of the pipe, without the terminating zero.
    pub addr: Seq<u16>,
    pub pipe_mode: PipeMode,
    pub options: OpenOptionsView,
    /// An instance was requested before.
    pub accepted: bool,
}

impl View for NamedPipeListener {
    type V = ListenerView;

    closed spec fn view(&self) -> ListenerView {
        ListenerView {
            addr: self.name@.drop_last(),
            pipe_mode: self.pipe_mode,
            options: self.options@,
            accepted: self.accepted,
        }
    }
}

impl ListenerView {
    /// The access bits and file flags of the next instance.
    pub open spec fn open_mode(self) -> u32 {
        let overlapped = self.options.access.flag() | FILE_FLAG_OVERLAPPED;
        if self.accepted {
            overlapped
        } else {
            overlapped | FILE_FLAG_FIRST_PIPE_INSTANCE
        }
    }

    /// `request` asks for the next instance of the pipe.
    pub open spec fn asks_for(self, request: CreatePipe) -> bool {
        &&& request.name@ == self.addr.push(0)
        &&& request.open_mode == self.open_mode()
        &&& request.pipe_mode == self.pipe_mode.flags()
        &&& request.max_instances == self.options.max_instances
        &&& request.out_buffer_size == self.options.out_buffer_size
        &&& request.in_buffer_size == self.options.in_buffer_size
        &&& request.default_timeout == 0
        &&& match request.security {
            Some(security) => {
                &&& self.options.security_descriptor is Some || self.options.inherit_handle
                &&& match security.descriptor {
                    Some(bytes) => self.options.security_descriptor == Some(bytes@),
                    None => self.options.security_descriptor is None,
                }
                &&& security.inherit_handle == self.options.inherit_handle
            },
            None => self.options.security_descriptor is None && !self.options.inherit_handle,
        }
    }
}

impl NamedPipeListener {
    /// The name ends with a zero.
    pub closed spec fn wf(&self) -> bool {
        self.name@.len() > 0 && self.name@.last() == 0
    }

    /// Creates a listener for the pipe with the name `addr`. Nothing is asked of the operating
    /// system yet, so this cannot fail.
    pub fn bind(
        addr: Vec<u16>,
        pipe_mode: PipeMode,
        options: Option<NamedPipeOpenOptions>,
    ) -> (bound: io::Result<NamedPipeListener>)
        ensures
            bound matches Ok(listener) && listener.wf() && listener@ == (ListenerView {
                addr: addr@,
                pipe_mode,
                options: match options {
                    Some(o) => o@,
                    None => OpenOptionsView::default_options(),
                },
                accepted: false,
            }),
    {
        let name = nul_terminated(addr);
        assert(name@.drop_last() =~= addr@);
        Ok(
            NamedPipeListener {
                name,
                pipe_mode,
                options: match options {
                    Some(o) => o,
                    None => NamedPipeOpenOptions::default(),
                },
                accepted: false,
            },
        )
    }

    /// Returns a builder for a listener with other options than the default ones.
    pub fn builder(addr: Vec<u16>) -> (builder: NamedPipeListenerBuilder)
        ensures
            builder@ == (ListenerView {
                addr: addr@,
                pipe_mode: PipeMode::Byte,
                options: OpenOptionsView::default_options(),
                accepted: false,
            }),
    {
        NamedPipeListenerBuilder::new(addr)
    }

    /// Returns the request for the next instance of the pipe, which the next client connects to.
    /// The first request, and no other, asks to be the first of all instances with that name.
    pub fn accept(&mut self) -> (request: CreatePipe<'_>)
        requires
            old(self).wf(),
        ensures
            old(self)@.asks_for(request),
            request.name@ == old(self)@.addr.push(0),
            request.pipe_mode == old(self)@.pipe_mode.flags(),
            final(self).wf(),
            final(self)@ == (ListenerView { accepted: true, ..old(self)@ }),
    {
        let first = !self.accepted;
        self.accepted = true;
        let mut open_mode: u32 = self.options.get_access().to_flag() | FILE_FLAG_OVERLAPPED;
        if first {
            open_mode = open_mode | FILE_FLAG_FIRST_PIPE_INSTANCE;
        }
        let descriptor = self.options.get_security_descriptor();
        let inherit_handle = self.options.get_inherit_handle();
        let security = if descriptor.is_some() || inherit_handle {
            Some(SecurityAttributes { descriptor, inherit_handle })
        } else {
            None
        };
        assert(self.name@.drop_last().push(0) =~= self.name@);
        CreatePipe {
            name: self.name.as_slice(),
            open_mode,
            pipe_mode: self.pipe_mode.to_flags(),
            max_instances: self.options.get_max_instances(),
            out_buffer_size: self.options.get_out_buffer_size(),
            in_buffer_size: self.options.get_in_buffer_size(),
            default_timeout: 0,
            security,
        }
    }
}

/// Builder of a [`NamedPipeListener`].
#[derive(Debug, Clone)]
pub struct NamedPipeListenerBuilder {
    name: Vec<u16>,
    pipe_mode: PipeMode,
    options: NamedPipeOpenOptions,
}

impl View for NamedPipeListenerBuilder {
    type V = ListenerView;

    /// The listener that is built.
    closed spec fn view(&self) -> ListenerView {
        ListenerView {
            addr: self.name@,
            pipe_mode: self.pipe_mode,
            options: self.options@,
            accepted: false,
        }
    }
}

impl NamedPipeListenerBuilder {
    fn new(addr: Vec<u16>) -> (builder: NamedPipeListenerBuilder)
        ensures
            builder@ == (ListenerView {
                addr: addr@,
                pipe_mode: PipeMode::Byte,
                options: OpenOptionsView::default_options(),
                accepted: false,
            }),
    {
        NamedPipeListenerBuilder {
            name: addr,
            pipe_mode: PipeMode::default(),
            options: NamedPipeOpenOptions::new(),
        }
    }

    /// Sets the wire format and read-side mode.
    pub fn pipe_mode(self, mode: PipeMode) -> (builder: NamedPipeListenerBuilder)
        ensures
            builder@ == (ListenerView { pipe_mode: mode, ..self@ }),
    {
        let mut builder = self;
        builder.pipe_mode = mode;
        builder
    }

    /// Sets which directions the server side may use.
    pub fn access(self, access: PipeAccess) -> (builder: NamedPipeListenerBuilder)
        ensures
            builder@ == (ListenerView {
                options: OpenOptionsView { access, ..self@.options },
                ..self@
            }),
    {
        let mut builder = self;
        builder.options = builder.options.access(access);
        builder
    }

    /// Sets the maximum number of pipe instances.
    pub fn max_instances(self, instances: u32) -> (builder: NamedPipeListenerBuilder)
        ensures
            builder@ == (ListenerView {
                options: OpenOptionsView { max_instances: instances, ..self@.options },
                ..self@
            }),
    {
        let mut builder = self;
        builder.options = builder.options.max_instances(instances);
        builder
    }

    /// Sets the size hint for the buffer from server to client, in bytes.
    pub fn out_buffer_size(self, size: u32) -> (builder: NamedPipeListenerBuilder)
        ensures
            builder@ == (ListenerView {
                options: OpenOptionsView { out_buffer_size: size, ..self@.options },
                ..self@
            }),
    {
        let mut builder = self;
        builder.options = builder.options.out_buffer_size(size);
        builder
    }

    /// Sets the size hint for the buffer from client to server, in bytes.
    pub fn in_buffer_size(self, size: u32) -> (builder: NamedPipeListenerBuilder)
        ensures
            builder@ == (ListenerView {
                options: OpenOptionsView { in_buffer_size: size, ..self@.options },
                ..self@
            }),
    {
        let mut builder = self;
        builder.options = builder.options.in_buffer_size(size);
        builder
    }

    /// Sets a security descriptor; see [`NamedPipeOpenOptions::security_descriptor`].
    pub fn security_descriptor(self, sd: Box<[u8]>) -> (builder: NamedPipeListenerBuilder)
        ensures
            builder@ == (ListenerView {
                options: OpenOptionsView { security_descriptor: Some(sd@), ..self@.options },
                ..self@
            }),
    {
        let mut builder = self;
        builder.options = builder.options.security_descriptor(sd);
        builder
    }

    /// Sets the security descriptor to what the operating system made of a descriptor string; see
    /// [`NamedPipeOpenOptions::security_descriptor_sddl`].
    pub fn security_descriptor_sddl(self, converted: io::Result<Box<[u8]>>) -> (builder: io::Result<
        NamedPipeListenerBuilder,
    >)
        ensures
            match converted {
                Ok(sd) => builder matches Ok(b) && b@ == (ListenerView {
                    options: OpenOptionsView { security_descriptor: Some(sd@), ..self@.options },
                    ..self@
                }),
                Err(e) => builder == Err::<NamedPipeListenerBuilder, io::Error>(e),
            },
    {
        let mut builder = self;
        match builder.options.security_descriptor_sddl(converted) {
            Ok(options) => {
                builder.options = options;
                Ok(builder)
            },
            Err(e) => Err(e),
        }
    }

    /// Sets whether child processes may inherit the handle of a pipe instance.
    pub fn inherit_handle(self, on: bool) -> (builder: NamedPipeListenerBuilder)
        ensures
            builder@ == (ListenerView {
                options: OpenOptionsView { inherit_handle: on, ..self@.options },
                ..self@
            }),
    {
        let mut builder = self;
        builder.options = builder.options.inherit_handle(on);
        builder
    }

    /// Replaces all options at once.
    pub fn options(self, options: NamedPipeOpenOptions) -> (builder: NamedPipeListenerBuilder)
        ensures
            builder@ == (ListenerView { options: options@, ..self@ }),
    {
        let mut builder = self;
        builder.options = options;
        builder
    }

    /// Creates the listener.
    pub fn bind(self) -> (bound: io::Result<NamedPipeListener>)
        ensures
            bound matches Ok(listener) && listener.wf() && listener@ == self@,
    {
        NamedPipeListener::bind(self.name, self.pipe_mode, Some(self.options))
    }
}

} // verus!
