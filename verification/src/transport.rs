//! The plain data of the transports, and the decisions a connection makes
//! around each read and write of its socket.
use vstd::prelude::*;

verus! {

/// Identifies a connection.
pub type ConnId = u64;

/// Which transport to run.
#[derive(Debug, Clone, Copy, PartialEq, Eq, Structural)]
pub enum TransportType {
    NetPoll,
    Udpoll,
}

/// Which backend drives a TCP transport.
#[derive(Debug, Clone, Copy, PartialEq, Eq, Structural)]
pub enum TcpBackendKind {
    Reactor,
    ThreadPerConnection,
}

/// Which backend drives a UDP transport.
#[derive(Debug, Clone, Copy, PartialEq, Eq, Structural)]
pub enum UdpBackendKind {
    UnreliableReactor,
    UnreliableThreadPerSocket,
    ReliableReactor,
}

/// A command for the thread that polls the connections.
#[derive(Clone)]
pub enum TransportCommand {
    Send(ConnId, Vec<u8>),
    Close(ConnId),
    Shutdown,
}

/// Why a read or write of a non-blocking socket failed.
#[derive(Debug, Clone, Copy, PartialEq, Eq, Structural)]
pub enum IoFailure {
    /// Nothing could be done without blocking.
    WouldBlock,
    /// A signal interrupted the call.
    Interrupted,
    /// Any other failure.
    Other,
}

/// What one read of a connection came to.
#[derive(Debug, Clone, Copy, PartialEq, Eq, Structural)]
pub enum ReadOutcome {
    /// This many bytes arrived.
    Data(usize),
    /// Nothing arrived yet.
    Idle,
    /// The peer closed, or the connection broke.
    Eof,
}

/// A read of no bytes is the end of the stream; a read that would block or
/// was interrupted is idle; any other failure ends the connection.
pub open spec fn outcome_of(r: Result<usize, IoFailure>) -> ReadOutcome {
    match r {
        Ok(n) => if n == 0 {
            ReadOutcome::Eof
        } else {
            ReadOutcome::Data(n)
        },
        Err(IoFailure::WouldBlock) => ReadOutcome::Idle,
        Err(IoFailure::Interrupted) => ReadOutcome::Idle,
        Err(IoFailure::Other) => ReadOutcome::Eof,
    }
}

/// What a read of the socket came to.
pub fn read_outcome(r: Result<usize, IoFailure>) -> (o: ReadOutcome)
    ensures
        o == outcome_of(r),
{
    match r {
        Ok(0) => ReadOutcome::Eof,
        Ok(n) => ReadOutcome::Data(n),
        Err(e) => {
            if e == IoFailure::WouldBlock || e == IoFailure::Interrupted {
                ReadOutcome::Idle
            } else {
                ReadOutcome::Eof
            }
        },
    }
}

/// What to do after one write of the pending bytes.
#[derive(Debug, Clone, Copy, PartialEq, Eq, Structural)]
pub enum FlushStep {
    /// Every byte is written.
    Done,
    /// Bytes remain but the socket takes no more now.
    Pending,
    /// Write again.
    Again,
    /// The write failed; the connection is broken.
    Failed,
}

/// The bytes queued for a connection, written out in order.
pub struct WriteBuffer {
    buf: Vec<u8>,
}

impl View for WriteBuffer {
    type V = Seq<u8>;

    closed spec fn view(&self) -> Seq<u8> {
        self.buf@
    }
}

impl WriteBuffer {
    pub fn new() -> (w: Self)
        ensures
            w@ == Seq::<u8>::empty(),
    {
        WriteBuffer { buf: Vec::new() }
    }

    /// Queues `data` behind the bytes already waiting.
    pub fn write_payload(&mut self, data: Vec<u8>)
        ensures
            final(self)@ == old(self)@ + data@,
    {
        let mut data = data;
        self.buf.append(&mut data);
    }

    pub fn is_empty(&self) -> (b: bool)
        ensures
            b == (self@.len() == 0),
    {
        self.buf.len() == 0
    }

    /// The bytes still to write, oldest first.
    pub fn pending(&self) -> (s: &[u8])
        ensures
            s@ == self@,
    {
        self.buf.as_slice()
    }

    /// Takes account of one write of the pending bytes: the bytes written
    /// leave the buffer; a write of nothing, or one that would block, leaves
    /// the rest for later; an interrupted write is tried again.
    pub fn flush_step(&mut self, written: Result<usize, IoFailure>) -> (step: FlushStep)
        requires
            old(self)@.len() > 0,
            written matches Ok(n) ==> n <= old(self)@.len(),
        ensures
            match written {
                Ok(n) => if n == 0 {
                    step == FlushStep::Pending && final(self)@ == old(self)@
                } else {
                    final(self)@ == old(self)@.subrange(n as int, old(self)@.len() as int) && step == (
                    if n == old(self)@.len() {
                        FlushStep::Done
                    } else {
                        FlushStep::Again
                    })
                },
                Err(IoFailure::WouldBlock) => step == FlushStep::Pending && final(self)@ == old(
                    self,
                )@,
                Err(IoFailure::Interrupted) => step == FlushStep::Again && final(self)@ == old(
                    self,
                )@,
                Err(IoFailure::Other) => step == FlushStep::Failed && final(self)@ == old(self)@,
            },
    {
        match written {
            Ok(0) => FlushStep::Pending,
            Ok(n) => {
                let len = self.buf.len();
                let mut rest: Vec<u8> = Vec::new();
                let mut i: usize = n;
                while i < len
                    invariant
                        n <= i <= len,
                        len == self.buf@.len(),
                        self.buf@ == old(self).buf@,
                        rest@ == self.buf@.subrange(n as int, i as int),
                    decreases len - i,
                {
                    rest.push(self.buf[i]);
                    i = i + 1;
                    proof {
                        assert(rest@ =~= self.buf@.subrange(n as int, i as int));
                    }
                }
                self.buf = rest;
                if self.buf.len() == 0 {
                    FlushStep::Done
                } else {
                    FlushStep::Again
                }
            },
            Err(IoFailure::WouldBlock) => FlushStep::Pending,
            Err(IoFailure::Interrupted) => FlushStep::Again,
            Err(IoFailure::Other) => FlushStep::Failed,
        }
    }
}

} // verus!
