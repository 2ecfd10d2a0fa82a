//! Readiness events, as the poller of the operating system reports and accepts them.

use vstd::prelude::*;

verus! {

/// Readiness of a source, or interest in it.
#[derive(Debug, Clone, Copy, PartialEq, Eq, Structural)]
pub struct Event {
    /// Key of the source.
    pub key: usize,
    /// Can it do a read operation without blocking?
    pub readable: bool,
    /// Can it do a write operation without blocking?
    pub writable: bool,
}

impl Event {
    /// No readiness and no interest.
    pub fn none(key: usize) -> (event: Event)
        ensures
            event == (Event { key, readable: false, writable: false }),
    {
        Event { key, readable: false, writable: false }
    }
}

} // verus!
