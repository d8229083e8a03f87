//! The UDP transport's choices and commands.
use vstd::prelude::*;

verus! {

/// Identifies a peer.
pub type PeerId = u64;

/// Which backend drives a UDP transport.
#[derive(Debug, Clone, Copy, PartialEq, Eq, Structural)]
pub enum BackendKind {
    UnreliableReactor,
    UnreliableThreadPerSocket,
    ReliableReactor,
}

/// A command for the thread that polls the socket.
pub enum Command {
    Send { peer: PeerId, data: Vec<u8>, reliable: bool },
    Close { peer: PeerId },
    Shutdown,
}

} // verus!
