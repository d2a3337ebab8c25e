//! The resilient command channel of a remote-control agent: the wire
//! envelope codec, the command routing table, the per-session liveness and
//! keep-alive decisions, and the reconnection supervisor with its bounded
//! exponential backoff.  The transport itself, the clock and the command
//! handlers are external collaborators; every decision this core takes is
//! stated in a contract and proved.

pub mod codec;
pub mod router;
pub mod session;
pub mod supervisor;
pub mod transport;
