//! The closed taxonomy of handshake failures.

use vstd::prelude::*;

verus! {

/// Which handshake message the peer was expected to send when it sent
/// something else.
#[derive(Clone, Copy, Debug, PartialEq, Eq, Structural)]
pub enum ExpectedMessage {
    /// The first reply of the exchange must be a `version` message.
    Version,
    /// The second reply of the exchange must be a `verack` message.
    Verack,
}

/// Every way one handshake attempt can fail.  Each kind maps to exactly one
/// cause and carries the underlying low-level error description, so a caller
/// can tell "peer unreachable" from "peer misbehaved" from "we were too slow".
///
/// The first seven kinds are produced by the protocol engine itself, in the
/// order the corresponding operations happen; the last three are synthesized
/// around an attempt by the orchestrator.
#[derive(Clone, Debug, PartialEq, Eq)]
pub enum HandshakeError {
    /// Opening the transport connection to the peer failed.
    ConnectionFailed(String),
    /// Duplicating the connection handle for independent reading failed.
    StreamDuplicationFailed(String),
    /// The local or remote endpoint of the connection could not be read.
    EndpointResolutionFailed(String),
    /// Writing our `version` message to the peer failed.
    VersionSendFailed(String),
    /// Writing our `verack` message to the peer failed.
    VerackSendFailed(String),
    /// The peer's first reply could not be decoded as a message envelope.
    VersionDecodeFailed(String),
    /// The peer's second reply could not be decoded as a message envelope.
    VerackDecodeFailed(String),
    /// The peer sent a well-formed message that is not the one the protocol
    /// calls for at this point.
    UnexpectedMessage { expected: ExpectedMessage },
    /// The attempt did not finish within the orchestrator's time budget.
    AttemptTimedOut,
    /// The task running the attempt could not be joined.
    TaskJoinFailed(String),
    /// The attempt ended with a runtime error outside the handshake taxonomy.
    OrchestrationRuntimeError(String),
}

} // verus!
