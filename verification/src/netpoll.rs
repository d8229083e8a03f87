//! The TCP transport's choices.
use vstd::prelude::*;

verus! {

/// Which backend drives a TCP transport.
#[derive(Debug, Clone, Copy, PartialEq, Eq, Structural)]
pub enum BackendKind {
    Reactor,
    ThreadPerConnection,
}

} // verus!
