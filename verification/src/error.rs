//! Errors surfaced by the actor system.
use vstd::prelude::*;

verus! {

/// The error of a one-shot reply channel whose sender was dropped.
#[verifier::external_type_specification]
#[verifier::external_body]
pub struct ExOneshotRecvError(tokio::sync::oneshot::error::RecvError);

/// The error of a pattern that the regular-expression engine rejects.
#[verifier::external_type_specification]
#[verifier::external_body]
pub struct ExRegexError(regex::Error);

/// All errors surfaced by the actor system.
#[derive(Debug)]
pub enum ActorError {
    /// A reply channel was dropped before a reply was sent.
    OneshotRecv(tokio::sync::oneshot::error::RecvError),
    /// Sending on a channel failed because its receiver is gone.
    ChannelSend(String),
    /// Receiving from a channel failed because all senders are gone.
    ChannelRecv,
    /// A timed request did not receive its reply in time.
    Timeout(core::time::Duration),
    /// An address pattern did not compile.
    AddressRegexError(regex::Error),
    /// Registration at an address that is already taken (and not a restart).
    AddressAlreadyExist(String),
    /// No actor of the requested type is registered at the address.
    AddressNotFound(String),
    /// The actor exists but did not reach `Receiving` within the retry budget.
    ActorNotReady(String),
    /// Reserved for a failed clone of actor state.
    CloneFailed(String),
    /// The actor system could not be reached.
    UnhealthyActorSystem,
    /// A payload or a reply was not of the actor's declared type.
    MessageTypeMismatch,
    /// The broker connection failed.
    InterNodeIo(String),
    /// Bytes received from another node did not decode.
    InterNodeDecode(String),
    /// No decoder is registered for the actor type named in an envelope.
    InterNodeDecoderMissing(String),
    /// The peer answered with an error, or the pending reply was dropped.
    InterNodeRemote(String),
    /// A cross-node request on a system without a broker connection.
    InterNodeNotConfigured,
    /// Registration of an address that names another node.
    AddressNotOwned(String),
}

} // verus!
