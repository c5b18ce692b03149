//! Stdin subscriber decisions.
//!
//! The event loop watches the host's standard input and, on readiness,
//! reads a chunk and feeds it into the serial device's receive FIFO. This
//! module decides what one readiness event means; the surrounding binary
//! performs the read and carries the decision out.
use vstd::prelude::*;

verus! {

/// Event payload under which the stdin descriptor is registered.
pub const STDIN_DATA: u32 = 0;

/// Bytes read from stdin per readiness event, at most.
pub const STDIN_CHUNK: usize = 64;

/// What the subscriber does with one readiness event.
#[derive(Clone, Copy, Debug, PartialEq, Eq, Structural)]
pub enum StdinAction {
    /// Feed the bytes that were read into the serial receive FIFO.
    Enqueue,
    /// End of input: take the stdin descriptor out of the event loop.
    Deregister,
    /// The read failed: log it and stay registered.
    LogReadError,
    /// Not this subscriber's event: do nothing.
    Skip,
}

/// Decides what one event means: only a read-readiness event carrying the
/// stdin payload is acted on; a successful read of at least one byte is
/// enqueued, a read of zero bytes is the end of input, and a failed read
/// is logged while the subscriber stays registered.
pub fn stdin_event_action(event_is_read: bool, data: u32, read_ok: bool, bytes_read: usize) -> (r:
    StdinAction)
    ensures
        r == (if !event_is_read || data != STDIN_DATA {
            StdinAction::Skip
        } else if !read_ok {
            StdinAction::LogReadError
        } else if bytes_read > 0 {
            StdinAction::Enqueue
        } else {
            StdinAction::Deregister
        }),
{
    if !event_is_read || data != STDIN_DATA {
        StdinAction::Skip
    } else if !read_ok {
        StdinAction::LogReadError
    } else if bytes_read > 0 {
        StdinAction::Enqueue
    } else {
        StdinAction::Deregister
    }
}

} // verus!
