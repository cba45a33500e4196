//! How the process ends.
//!
//! There is no graceful shutdown: whichever part of the program meets a
//! fatal condition ends the whole process with the status that the
//! condition calls for.

use vstd::prelude::*;

verus! {

/// The status of a process that ended of its own accord.
pub const EXIT_OK: i32 = 0;

/// The status after an irrecoverable error during setup or normal operation.
pub const EXIT_FAILURE: i32 = 1;

/// The status after the stream was closed or the receiving side failed.
pub const EXIT_STREAM_CLOSED: i32 = 2;

/// A condition that ends the process.
#[derive(Debug, Clone, Copy, PartialEq, Eq)]
pub enum Fatal {
    /// The configuration cannot be used: a bad frame size, a URL that does
    /// not parse.
    Configuration,
    /// The login request failed, or its response held no session cookie.
    Authentication,
    /// The handshake was refused.
    Handshake,
    /// A frame could not be sent.
    Send,
    /// Standard output could not be written.
    Output,
    /// The remote end closed the stream.
    StreamClosed,
    /// The receiving side reported any other error.
    Receive,
}

/// The exit status that goes with a fatal condition: the stream-closed
/// status for the two conditions of the receiving side, the failure status
/// for all others.
pub open spec fn exit_status(fatal: Fatal) -> i32 {
    match fatal {
        Fatal::StreamClosed | Fatal::Receive => EXIT_STREAM_CLOSED,
        _ => EXIT_FAILURE,
    }
}

/// The exit status for a fatal condition.
pub fn exit_code(fatal: Fatal) -> (code: i32)
    ensures
        code == exit_status(fatal),
        code == 1 || code == 2,
{
    match fatal {
        Fatal::StreamClosed | Fatal::Receive => EXIT_STREAM_CLOSED,
        _ => EXIT_FAILURE,
    }
}

} // verus!
