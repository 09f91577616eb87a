//! Per-node topics and the envelopes exchanged between nodes.
use vstd::prelude::*;
use crate::error::ActorError;
use crate::inter_node::address::Address;

verus! {

/// Distinguishes the two per-node topics each node subscribes to.
#[derive(Debug, Clone, Copy, PartialEq, Eq, Structural)]
pub enum TopicKind {
    /// Incoming work for the owning node: fire, call and broadcast envelopes.
    Request,
    /// Incoming replies addressed to the owning node.
    Response,
}

/// A broker topic: one request and one response topic per node.
#[derive(Debug, Clone)]
pub struct Topic {
    /// The node this topic belongs to.
    pub node: String,
    /// Request side or response side.
    pub kind: TopicKind,
}

impl Topic {
    /// The incoming-request topic of `node`.
    pub fn request<N: Into<String>>(node: N) -> (t: Self)
        ensures
            call_ensures(<N as Into<String>>::into, (node,), t.node),
            t.kind == TopicKind::Request,
    {
        Topic { node: node.into(), kind: TopicKind::Request }
    }

    /// The incoming-response topic of `node`.
    pub fn response<N: Into<String>>(node: N) -> (t: Self)
        ensures
            call_ensures(<N as Into<String>>::into, (node,), t.node),
            t.kind == TopicKind::Response,
    {
        Topic { node: node.into(), kind: TopicKind::Response }
    }
}

/// Wire envelope of a single inter-node request, published to the request
/// topic of the target node.
#[derive(Debug, Clone)]
pub enum InterNodeMessage {
    /// Fire-and-forget send to one actor.
    Fire {
        /// Type name of the target actor, used to find its decoder.
        actor_type: String,
        /// Name part of the target address.
        target_name: String,
        /// The encoded message.
        payload: Vec<u8>,
    },
    /// Request/response send to one actor.
    Call {
        actor_type: String,
        target_name: String,
        /// Where the response goes: the caller's response topic.
        reply_to: Topic,
        /// Caller-local id matching the response to the waiting request.
        req_id: u64,
        payload: Vec<u8>,
    },
    /// Fan-out to every actor of the receiving node whose name matches.
    BroadcastFire {
        actor_type: String,
        /// `*`-wildcard pattern matched on the receiving node.
        name_regex: String,
        payload: Vec<u8>,
    },
}

/// Wire envelope of a reply to a `Call`.
#[derive(Debug, Clone)]
pub struct InterNodeResponse {
    /// The `req_id` of the originating call.
    pub req_id: u64,
    pub outcome: ResponseOutcome,
}

/// The payload of a reply: the encoded result or the receiver's error text.
#[derive(Debug, Clone)]
pub enum ResponseOutcome {
    /// The receiver's handler succeeded; the encoded result.
    Success(Vec<u8>),
    /// The receiver could not produce a result; its error text.
    Failure(String),
}

/// A fire envelope for `target`, published to the target node's request topic.
pub fn fire_envelope(target: &Address, actor_type: &str, payload: Vec<u8>) -> (r: (Topic, InterNodeMessage))
    ensures
        r.0.node@ == target.node@,
        r.0.kind == TopicKind::Request,
        r.1 matches InterNodeMessage::Fire { actor_type: t, target_name: n, payload: p }
            && t@ == actor_type@ && n@ == target.name@ && p@ == payload@,
{
    let topic = Topic { node: target.node.clone(), kind: TopicKind::Request };
    (topic, InterNodeMessage::Fire {
        actor_type: String::from_str(actor_type),
        target_name: target.name.clone(),
        payload,
    })
}

/// A call envelope for `target` from node `self_node` under `req_id`,
/// published to the target node's request topic; its reply goes to the
/// response topic of `self_node`.
pub fn call_envelope(target: &Address, self_node: &str, actor_type: &str, req_id: u64, payload: Vec<u8>) -> (r: (Topic, InterNodeMessage))
    ensures
        r.0.node@ == target.node@,
        r.0.kind == TopicKind::Request,
        r.1 matches InterNodeMessage::Call { actor_type: t, target_name: n, reply_to, req_id: id, payload: p }
            && t@ == actor_type@ && n@ == target.name@ && p@ == payload@ && id == req_id
            && reply_to.node@ == self_node@ && reply_to.kind == TopicKind::Response,
{
    let topic = Topic { node: target.node.clone(), kind: TopicKind::Request };
    (topic, InterNodeMessage::Call {
        actor_type: String::from_str(actor_type),
        target_name: target.name.clone(),
        reply_to: Topic { node: String::from_str(self_node), kind: TopicKind::Response },
        req_id,
        payload,
    })
}

/// A broadcast envelope for `target_node`, published to its request topic.
pub fn broadcast_envelope(target_node: &str, actor_type: &str, name_regex: &str, payload: Vec<u8>) -> (r: (Topic, InterNodeMessage))
    ensures
        r.0.node@ == target_node@,
        r.0.kind == TopicKind::Request,
        r.1 matches InterNodeMessage::BroadcastFire { actor_type: t, name_regex: re, payload: p }
            && t@ == actor_type@ && re@ == name_regex@ && p@ == payload@,
{
    let topic = Topic { node: String::from_str(target_node), kind: TopicKind::Request };
    (topic, InterNodeMessage::BroadcastFire {
        actor_type: String::from_str(actor_type),
        name_regex: String::from_str(name_regex),
        payload,
    })
}

/// The reply a receiving node sends for what it made of a call.
pub open spec fn outcome_of(handled: Result<Vec<u8>, String>) -> ResponseOutcome {
    match handled {
        Ok(b) => ResponseOutcome::Success(b),
        Err(m) => ResponseOutcome::Failure(m),
    }
}

/// What a caller makes of a reply.
pub open spec fn result_of(outcome: ResponseOutcome) -> Result<Vec<u8>, ActorError> {
    match outcome {
        ResponseOutcome::Success(b) => Ok(b),
        ResponseOutcome::Failure(m) => Err(ActorError::InterNodeRemote(m)),
    }
}

/// The reply to a call on the receiving node: the encoded result when the
/// local dispatch and the encoding succeeded, otherwise the error's text.
pub fn reply_outcome(handled: Result<Vec<u8>, String>) -> (r: ResponseOutcome)
    ensures
        r == outcome_of(handled),
{
    match handled {
        Ok(bytes) => ResponseOutcome::Success(bytes),
        Err(msg) => ResponseOutcome::Failure(msg),
    }
}

/// What the caller makes of a reply: the result bytes, or the peer's error as
/// `InterNodeRemote`.
pub fn outcome_result(outcome: ResponseOutcome) -> (r: Result<Vec<u8>, ActorError>)
    ensures
        r == result_of(outcome),
{
    match outcome {
        ResponseOutcome::Success(bytes) => Ok(bytes),
        ResponseOutcome::Failure(msg) => Err(ActorError::InterNodeRemote(msg)),
    }
}

/// A call's reply carries back exactly what the receiver handled: result bytes
/// arrive unchanged, and an error text arrives as `InterNodeRemote` of it.
pub proof fn lemma_reply_roundtrip(handled: Result<Vec<u8>, String>)
    ensures
        handled matches Ok(b) ==> result_of(outcome_of(handled)) == Ok::<Vec<u8>, ActorError>(b),
        handled matches Err(m) ==> result_of(outcome_of(handled)) == Err::<Vec<u8>, ActorError>(
            ActorError::InterNodeRemote(m),
        ),
{
}

} // verus!
