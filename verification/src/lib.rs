//! The decision-making core of an asynchronous I/O reactor and of the Windows named-pipe
//! endpoints built on it.
//!
//! The crate performs no I/O. It holds the state that decides which task is woken when
//! ([`reactor`], [`source`], [`direction`], [`timers`]), and the state machines and request
//! builders of named pipes ([`named_pipe`], [`listener`], [`stream`], [`operation`]). A driver
//! polls the operating system, hands the outcomes in as plain values and carries out the commands
//! that come back. What holds of several operations together is stated in [`laws`].

pub mod direction;
pub mod event;
pub mod laws;
pub mod listener;
pub mod named_pipe;
pub mod op_queue;
pub mod operation;
pub mod os_error;
pub mod reactor;
pub mod registration;
pub mod slots;
pub mod source;
pub mod source_table;
pub mod stream;
pub mod timers;
pub mod wide;
pub mod win32;
