//! The client's per-connection roles: a writer that sends the fixed message
//! back to back, and a reader that drains the echo and reports how many bytes
//! each read brought.

use vstd::prelude::*;
use crate::stream::{IoOutcome, StopReason};

verus! {

/// Length in bytes of the message that every writer sends.
pub const MESSAGE_LEN: usize = 8;

/// The message's bytes: `message` followed by a newline.
pub open spec fn message_bytes() -> Seq<u8> {
    seq![109u8, 101u8, 115u8, 115u8, 97u8, 103u8, 101u8, 10u8]
}

/// The fixed payload, as bytes ready for a write call.
pub fn message() -> (m: Vec<u8>)
    ensures
        m@ == message_bytes(),
        m@.len() == MESSAGE_LEN,
{
    let m: Vec<u8> = vec![109u8, 101u8, 115u8, 115u8, 97u8, 103u8, 101u8, 10u8];
    assert(m@ =~= message_bytes());
    m
}

/// What a writer does after a write call.
#[derive(Clone, Copy, Debug, PartialEq, Eq, Structural)]
pub enum WriterAction {
    /// Write the message again.
    Send,
    Stop(StopReason),
}

/// A writer keeps sending while writes move bytes; zero bytes written means
/// the connection closed, and a failure ends the loop too.
pub fn writer_step(outcome: IoOutcome) -> (action: WriterAction)
    ensures
        action == match outcome {
            IoOutcome::Done(n) => if n == 0 {
                WriterAction::Stop(StopReason::Disconnected)
            } else {
                WriterAction::Send
            },
            IoOutcome::Failed => WriterAction::Stop(StopReason::WriteFailed),
        },
{
    match outcome {
        IoOutcome::Done(0) => WriterAction::Stop(StopReason::Disconnected),
        IoOutcome::Done(_) => WriterAction::Send,
        IoOutcome::Failed => WriterAction::Stop(StopReason::WriteFailed),
    }
}

/// What a reader does after a read call.
#[derive(Clone, Copy, Debug, PartialEq, Eq, Structural)]
pub enum ReaderAction {
    /// Hand this byte count to the aggregator, then report with `after_report`.
    Report(usize),
    Stop(StopReason),
}

/// A reader reports the exact count of every read that brought bytes; a read
/// of zero bytes means the connection closed, and a failure ends the loop.
pub fn reader_step(outcome: IoOutcome) -> (action: ReaderAction)
    ensures
        action == match outcome {
            IoOutcome::Done(n) => if n == 0 {
                ReaderAction::Stop(StopReason::Disconnected)
            } else {
                ReaderAction::Report(n)
            },
            IoOutcome::Failed => ReaderAction::Stop(StopReason::ReadFailed),
        },
{
    match outcome {
        IoOutcome::Done(0) => ReaderAction::Stop(StopReason::Disconnected),
        IoOutcome::Done(n) => ReaderAction::Report(n),
        IoOutcome::Failed => ReaderAction::Stop(StopReason::ReadFailed),
    }
}

/// After handing a count to the aggregator's queue: go on reading if it was
/// accepted, stop if the queue is closed.
pub fn after_report(accepted: bool) -> (stop: Option<StopReason>)
    ensures
        stop == if accepted { None } else { Some(StopReason::ReportRejected) },
{
    if accepted {
        None
    } else {
        Some(StopReason::ReportRejected)
    }
}

} // verus!
