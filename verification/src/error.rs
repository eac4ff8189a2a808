//! The kinds of failure that the relay distinguishes.
use vstd::prelude::*;

verus! {

/// The two roles in which an execution node is called.
#[derive(Debug, Clone, Copy, PartialEq, Eq, Structural)]
pub enum NodeRole {
    /// The node that owns the consensus-critical state; reached with a token.
    Authenticated,
    /// The companion node, asked for advice only; reached without a token.
    Unauthenticated,
}

/// Why a token was rejected.
#[derive(Debug, Clone, Copy, PartialEq, Eq, Structural)]
pub enum AuthError {
    /// The token could not be read.
    Malformed,
    /// The signature does not belong to the shared secret.
    InvalidSignature,
    /// The issue time lies too far in the past.
    Expired,
    /// The issue time lies too far in the future.
    Premature,
}

/// Why a call could not be answered.
#[derive(Debug, Clone, Copy, PartialEq, Eq, Structural)]
pub enum RelayError {
    /// The inbound message or one of its fields is malformed.
    DecodeError,
    /// The method is not one of the known engine methods.
    UnsupportedMethod,
    /// The token is bad, expired or missing.
    AuthError(AuthError),
    /// A node could not be reached within its time budget.
    NodeUnreachable(NodeRole),
    /// The node answered with a JSON-RPC error object.
    NodeRpcError,
    /// A fallback was asked for while no legitimate pair is known.
    NoLegitimateState,
    /// The record could not be written; never fatal to the call.
    PersistenceError,
}

} // verus!
