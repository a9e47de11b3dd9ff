//! Outcomes of I/O calls on a connection, as the step functions take them.

use vstd::prelude::*;

verus! {

/// Size of the buffer that one read on a connection may fill.
pub const READ_BUFFER_SIZE: usize = 65536;

/// What one read or write call on a stream came to: the number of bytes it
/// moved, or a failure.
#[derive(Clone, Copy, Debug, PartialEq, Eq, Structural)]
pub enum IoOutcome {
    Done(usize),
    Failed,
}

/// Why a connection loop ended.
#[derive(Clone, Copy, Debug, PartialEq, Eq, Structural)]
pub enum StopReason {
    /// A read or a write moved zero bytes: the peer closed its side.
    Disconnected,
    ReadFailed,
    WriteFailed,
    /// The byte-count queue is closed: nobody aggregates reports any more.
    ReportRejected,
}

} // verus!
