//! Protocol layer of a blockchain validator node.
//!
//! The crate models the message-handling core of a validator: an immutable
//! block value with a canonical signing encoding, a connection acceptor that
//! fans events out to subscribers, and the three protocol handlers that run
//! per connection (block proposals and voting, chain synchronization, and
//! gossip replication with message deduplication).  Every handler is a step
//! function from the node's state and one inbound message to the next state
//! and the network actions the caller must perform; the surrounding receive
//! loops and socket work live outside the library.

use vstd::prelude::*;

pub mod encode;
pub mod block;
pub mod messages;
pub mod validator;
pub mod protocol_sync;
pub mod protocol_proposal;
pub mod protocol_raft;
pub mod acceptor;

verus! {

/// Operational errors of the protocol layer.
///
/// `OperationFailed` reports a failed bind or address resolution when the
/// acceptor starts; `ServiceStopped` reports a failed accept attempt, which
/// terminates the accept loop; `InvalidProposal` reports a proposal the
/// validator state rejected as malformed or out of context;
/// `BlockAdditionFailed` reports a finalized block that cannot extend the
/// local chain.
#[derive(Clone, Copy, Debug, PartialEq, Eq, Structural)]
pub enum Error {
    OperationFailed,
    ServiceStopped,
    InvalidProposal,
    BlockAdditionFailed,
}

} // verus!
