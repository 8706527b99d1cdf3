use vstd::prelude::*;

verus! {

/// Errors of the session orchestration core.
#[derive(Clone, Copy, Debug, PartialEq, Eq, Structural)]
pub enum Error {
    /// A peer needed by the operation is not connected.
    NodeDisconnected,
    /// A session with this id is already live.
    DuplicateSessionId,
    /// An exclusive session cannot start while another admin session is live.
    HasActiveSessions,
    /// The threshold asks for more nodes than the session has.
    NotEnoughNodesForThreshold,
    /// The request or message is malformed.
    InvalidMessage,
    /// The set of nodes is not acceptable.
    InvalidNodesConfiguration,
    /// The requester may not use the key.
    AccessDenied,
    /// Consensus cannot be reached.
    ConsensusUnreachable,
    /// Consensus cannot be reached now, but may be later.
    ConsensusTemporaryUnreachable,
    /// A message names no live session and may not create one.
    UnknownSession,
    /// A failure inside the node.
    Internal,
}

/// Errors that a session recovers from without ending.
pub open spec fn non_fatal(e: Error) -> bool {
    e == Error::ConsensusTemporaryUnreachable
}

impl Error {
    /// Whether the error leaves the session able to go on.
    pub fn is_non_fatal(&self) -> (r: bool)
        ensures
            r == non_fatal(*self),
    {
        match self {
            Error::ConsensusTemporaryUnreachable => true,
            _ => false,
        }
    }
}

} // verus!
