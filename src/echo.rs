//! The server's per-connection echo handler: read a chunk, write that chunk back
//! unchanged, repeat until the peer closes or an I/O call fails.

use vstd::prelude::*;
use crate::stream::{IoOutcome, StopReason};

verus! {

/// Where an echo handler stands between two I/O calls.
#[derive(Clone, Copy, Debug, PartialEq, Eq, Structural)]
pub enum EchoPhase {
    AwaitingRead,
    AwaitingWrite,
    Stopped(StopReason),
}

/// What the caller must do next on the connection.
#[derive(Debug)]
pub enum EchoAction {
    /// Read into the buffer and report the outcome with `on_read`.
    Read,
    /// Write these bytes back in one write call and report it with `on_write`.
    Write(Vec<u8>),
    /// End the loop.
    Stop(StopReason),
}

/// State of one accepted connection's echo loop. Besides the phase it records,
/// as ghost state, every byte read so far, every byte confirmed written, and the
/// chunk that is waiting for its write.
pub struct EchoHandler {
    phase: EchoPhase,
    pending_len: usize,
    received: Ghost<Seq<u8>>,
    written: Ghost<Seq<u8>>,
    pending: Ghost<Seq<u8>>,
    complete: Ghost<bool>,
}

impl EchoHandler {
    pub closed spec fn phase(&self) -> EchoPhase {
        self.phase
    }

    /// Every byte read from the connection, in order.
    pub closed spec fn received(&self) -> Seq<u8> {
        self.received@
    }

    /// Every byte that a write call confirmed, in order.
    pub closed spec fn written(&self) -> Seq<u8> {
        self.written@
    }

    /// The chunk handed out for writing and not yet reported on.
    pub closed spec fn pending(&self) -> Seq<u8> {
        self.pending@
    }

    /// No write so far moved fewer bytes than it was handed.
    pub closed spec fn all_writes_complete(&self) -> bool {
        self.complete@
    }

    pub closed spec fn wf(&self) -> bool {
        &&& self.pending@.len() == self.pending_len
        &&& self.complete@ ==> if self.phase == EchoPhase::AwaitingWrite {
            self.written@ + self.pending@ == self.received@
        } else {
            self.written@ == self.received@
        }
    }

    /// A handler for a freshly accepted connection: it starts by reading.
    pub fn new() -> (h: EchoHandler)
        ensures
            h.wf(),
            h.phase() == EchoPhase::AwaitingRead,
            h.received() == Seq::<u8>::empty(),
            h.written() == Seq::<u8>::empty(),
            h.all_writes_complete(),
    {
        EchoHandler {
            phase: EchoPhase::AwaitingRead,
            pending_len: 0,
            received: Ghost(Seq::empty()),
            written: Ghost(Seq::empty()),
            pending: Ghost(Seq::empty()),
            complete: Ghost(true),
        }
    }

    pub fn is_stopped(&self) -> (r: bool)
        ensures
            r == (self.phase() is Stopped),
    {
        match self.phase {
            EchoPhase::Stopped(_) => true,
            _ => false,
        }
    }

    /// Takes the outcome of a read into `buffer`. Zero bytes means the peer
    /// closed; a failure ends the loop too; otherwise exactly the bytes just
    /// read are handed back for one write.
    pub fn on_read(&mut self, buffer: &[u8], outcome: IoOutcome) -> (action: EchoAction)
        requires
            old(self).wf(),
            old(self).phase() == EchoPhase::AwaitingRead,
            outcome matches IoOutcome::Done(n) ==> n <= buffer@.len(),
        ensures
            final(self).wf(),
            final(self).written() == old(self).written(),
            final(self).all_writes_complete() == old(self).all_writes_complete(),
            match outcome {
                IoOutcome::Done(n) => if n == 0 {
                    &&& action == EchoAction::Stop(StopReason::Disconnected)
                    &&& final(self).phase() == EchoPhase::Stopped(StopReason::Disconnected)
                    &&& final(self).received() == old(self).received()
                } else {
                    &&& action matches EchoAction::Write(chunk) && chunk@ == buffer@.subrange(0, n as int)
                    &&& final(self).phase() == EchoPhase::AwaitingWrite
                    &&& final(self).pending() == buffer@.subrange(0, n as int)
                    &&& final(self).received() == old(self).received() + buffer@.subrange(0, n as int)
                },
                IoOutcome::Failed => {
                    &&& action == EchoAction::Stop(StopReason::ReadFailed)
                    &&& final(self).phase() == EchoPhase::Stopped(StopReason::ReadFailed)
                    &&& final(self).received() == old(self).received()
                },
            },
    {
        match outcome {
            IoOutcome::Done(n) => {
                if n == 0 {
                    self.phase = EchoPhase::Stopped(StopReason::Disconnected);
                    EchoAction::Stop(StopReason::Disconnected)
                } else {
                    let chunk = prefix_of(buffer, n);
                    self.received = Ghost(self.received@ + chunk@);
                    self.pending = Ghost(chunk@);
                    self.pending_len = n;
                    self.phase = EchoPhase::AwaitingWrite;
                    EchoAction::Write(chunk)
                }
            },
            IoOutcome::Failed => {
                self.phase = EchoPhase::Stopped(StopReason::ReadFailed);
                EchoAction::Stop(StopReason::ReadFailed)
            },
        }
    }

    /// Takes the outcome of writing the pending chunk. Zero bytes means the peer
    /// closed; a failure ends the loop; any other count, short or whole, goes
    /// back to reading (a short write is not retried).
    pub fn on_write(&mut self, outcome: IoOutcome) -> (action: EchoAction)
        requires
            old(self).wf(),
            old(self).phase() == EchoPhase::AwaitingWrite,
            outcome matches IoOutcome::Done(k) ==> k <= old(self).pending().len(),
        ensures
            final(self).wf(),
            final(self).received() == old(self).received(),
            match outcome {
                IoOutcome::Done(k) => if k == 0 {
                    &&& action == EchoAction::Stop(StopReason::Disconnected)
                    &&& final(self).phase() == EchoPhase::Stopped(StopReason::Disconnected)
                    &&& final(self).written() == old(self).written()
                    &&& final(self).all_writes_complete() == (old(self).all_writes_complete()
                        && old(self).pending().len() == 0)
                } else {
                    &&& action == EchoAction::Read
                    &&& final(self).phase() == EchoPhase::AwaitingRead
                    &&& final(self).written() == old(self).written() + old(self).pending().subrange(0, k as int)
                    &&& final(self).all_writes_complete() == (old(self).all_writes_complete()
                        && k == old(self).pending().len())
                },
                IoOutcome::Failed => {
                    &&& action == EchoAction::Stop(StopReason::WriteFailed)
                    &&& final(self).phase() == EchoPhase::Stopped(StopReason::WriteFailed)
                    &&& final(self).written() == old(self).written()
                    &&& final(self).all_writes_complete() == (old(self).all_writes_complete()
                        && old(self).pending().len() == 0)
                },
            },
    {
        match outcome {
            IoOutcome::Done(k) => {
                if k == 0 {
                    let ghost c = self.complete@ && self.pending_len == 0;
                    self.complete = Ghost(c);
                    self.phase = EchoPhase::Stopped(StopReason::Disconnected);
                    EchoAction::Stop(StopReason::Disconnected)
                } else {
                    proof {
                        if k == self.pending_len {
                            assert(self.pending@.subrange(0, k as int) =~= self.pending@);
                        }
                    }
                    let ghost c = self.complete@ && k == self.pending_len;
                    self.complete = Ghost(c);
                    self.written = Ghost(self.written@ + self.pending@.subrange(0, k as int));
                    self.pending = Ghost(Seq::empty());
                    self.pending_len = 0;
                    self.phase = EchoPhase::AwaitingRead;
                    EchoAction::Read
                }
            },
            IoOutcome::Failed => {
                let ghost c = self.complete@ && self.pending_len == 0;
                self.complete = Ghost(c);
                self.phase = EchoPhase::Stopped(StopReason::WriteFailed);
                EchoAction::Stop(StopReason::WriteFailed)
            },
        }
    }
}

/// The first `n` bytes of `buffer`, as an owned chunk.
fn prefix_of(buffer: &[u8], n: usize) -> (chunk: Vec<u8>)
    requires
        n <= buffer@.len(),
    ensures
        chunk@ == buffer@.subrange(0, n as int),
{
    let mut chunk: Vec<u8> = Vec::with_capacity(n);
    let mut i: usize = 0;
    while i < n
        invariant
            i <= n,
            n <= buffer@.len(),
            chunk@ == buffer@.subrange(0, i as int),
        decreases n - i,
    {
        chunk.push(buffer[i]);
        i += 1;
    }
    chunk
}

/// While every write has moved its whole chunk, whenever the
/// handler is not waiting on a write, the bytes written back are exactly the
/// bytes read, in order.
pub proof fn lemma_echo_fidelity(h: EchoHandler)
    requires
        h.wf(),
        h.all_writes_complete(),
        h.phase() != EchoPhase::AwaitingWrite,
    ensures
        h.written() == h.received(),
{
}

} // verus!
