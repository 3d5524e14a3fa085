//! The message bridge between host code and content running in a surface.
//!
//! Outbound, the host serializes a request, hands native code a
//! correlation token, and waits — under a fixed ceiling — for the one
//! answer; `settle_call` turns how that wait ended into the call's
//! result.  Inbound, native code delivers a serialized request with an
//! opaque reply token; `accept_inbound` decides what happens to it, and
//! `finish_inbound` shapes the one reply that token gets.

use crate::boundary::{nul_free, to_foreign, ForeignBuffer};
use crate::browser::HandlerSlot;
use vstd::prelude::*;
use vstd::string::StringExecFns;

verus! {

/// Why a bridge call failed.
#[derive(Debug, Clone, Copy, PartialEq, Eq, Structural)]
pub enum BridgeError {
    /// The request or the response could not be carried: encoding or
    /// decoding it failed.
    SerdeError,
    /// The wait for the native answer outlived the fixed ceiling.
    Timeout,
    /// The correlation channel closed without a value: the native side
    /// was torn down while the call was in flight.
    CallError,
}

impl BridgeError {
    /// A short name for the error, for hosts that log it.
    pub fn describe(&self) -> (r: &'static str)
        ensures
            *self == BridgeError::SerdeError ==> r@ == "SerdeError"@,
            *self == BridgeError::Timeout ==> r@ == "Timeout"@,
            *self == BridgeError::CallError ==> r@ == "CallError"@,
    {
        match self {
            BridgeError::SerdeError => "SerdeError",
            BridgeError::Timeout => "Timeout",
            BridgeError::CallError => "CallError",
        }
    }
}

/// The ceiling, in seconds, on the wait for an outbound call's answer.
pub const BRIDGE_CALL_TIMEOUT_SECS: u64 = 10;

/// How the wait for an outbound call's one-shot answer ended.
pub enum CallWait {
    /// Native code replied: a serialized payload, or `None`, its marker
    /// for "no response" — an answer, not an error.
    Replied(Option<String>),
    /// The ceiling passed first.  The native call may still complete
    /// later; its answer then falls into an abandoned slot.
    TimedOut,
    /// The correlation channel closed without a value.
    ChannelClosed,
}

/// The result an outbound call resolves to, for each way the wait can
/// end.
pub open spec fn settled(wait: CallWait) -> Result<Option<String>, BridgeError> {
    match wait {
        CallWait::Replied(payload) => Ok(payload),
        CallWait::TimedOut => Err(BridgeError::Timeout),
        CallWait::ChannelClosed => Err(BridgeError::CallError),
    }
}

/// Encodes a serialized request for the native bridge-call entry point.
/// An encoding failure is a serialization error, never a fault.
pub fn prepare_request(req_json: &str) -> (r: Result<ForeignBuffer, BridgeError>)
    ensures
        r is Ok <==> nul_free(vstd::utf8::encode_utf8(req_json@)),
        r is Ok ==> (r->Ok_0).wf() && (r->Ok_0).content() == vstd::utf8::encode_utf8(req_json@),
        r is Err ==> r->Err_0 == BridgeError::SerdeError,
{
    match to_foreign(req_json) {
        Ok(buf) => Ok(buf),
        Err(_) => Err(BridgeError::SerdeError),
    }
}

/// Resolves an outbound call from how its wait ended: the payload when
/// native code replied, `Timeout` when the ceiling passed first,
/// `CallError` when the channel closed without a value.
pub fn settle_call(wait: CallWait) -> (r: Result<Option<String>, BridgeError>)
    ensures
        r == settled(wait),
{
    match wait {
        CallWait::Replied(payload) => Ok(payload),
        CallWait::TimedOut => Err(BridgeError::Timeout),
        CallWait::ChannelClosed => Err(BridgeError::CallError),
    }
}

/// A native-initiated request: its serialized body and the opaque token
/// the one reply must carry back.
pub struct InboundRequest {
    pub token: usize,
    pub body: String,
}

/// The one reply an inbound request gets: the payload sits in exactly one
/// of the two slots — `success` for the handler's answer, `failure` for
/// an error — matching the two payload slots of the native reply entry
/// point, where the other is the null pointer.
pub struct InboundReply {
    pub token: usize,
    pub success: Option<ForeignBuffer>,
    pub failure: Option<ForeignBuffer>,
}

impl InboundReply {
    pub open spec fn wf(self) -> bool {
        &&& (self.success is Some <==> self.failure is None)
        &&& (self.success matches Some(b) ==> b.wf())
        &&& (self.failure matches Some(b) ==> b.wf())
    }
}

/// What a reply payload carries for the text `text`: its encoding, or —
/// when the text cannot cross the boundary at all — nothing.
pub open spec fn reply_payload(text: Seq<char>) -> Seq<u8> {
    if nul_free(vstd::utf8::encode_utf8(text)) {
        vstd::utf8::encode_utf8(text)
    } else {
        Seq::<u8>::empty()
    }
}

fn encode_payload(text: &str) -> (r: ForeignBuffer)
    ensures
        r.wf(),
        r.content() == reply_payload(text@),
{
    match to_foreign(text) {
        Ok(buf) => buf,
        Err(_) => ForeignBuffer::empty(),
    }
}

/// Shapes the one reply for the request carrying `token`, once the
/// handler's outcome is in hand: the answer fills the success slot, an
/// error the failure slot, and the other stays empty.
pub fn finish_inbound(token: usize, outcome: Result<String, String>) -> (r: InboundReply)
    ensures
        r.wf(),
        r.token == token,
        outcome matches Ok(s) ==> r.failure is None && r.success is Some && (
        r.success->0).content() == reply_payload(s@),
        outcome matches Err(e) ==> r.success is None && r.failure is Some && (
        r.failure->0).content() == reply_payload(e@),
{
    match outcome {
        Ok(s) => InboundReply { token, success: Some(encode_payload(s.as_str())), failure: None },
        Err(e) => InboundReply { token, success: None, failure: Some(encode_payload(e.as_str())) },
    }
}

/// What becomes of one delivered inbound request.
pub enum InboundDecision<'a, H> {
    /// The request bytes were the null pointer or not valid UTF-8: the
    /// request is absorbed silently — observer paths have no error
    /// channel.
    Drop,
    /// No handler is registered: the request is answered at once with
    /// the generic no-handler failure.
    ReplyNoHandler(InboundReply),
    /// Run this handler — the one registered right now — on the decoded
    /// request; its outcome goes through `finish_inbound`.
    Run(&'a H, InboundRequest),
}

/// Decides what happens to a delivered inbound request: unreadable bytes
/// are dropped; without a registered handler the token is answered at
/// once with the no-handler failure; otherwise the decoded request goes
/// to the handler registered at this moment — after a re-registration,
/// the new handler and it alone.
pub fn accept_inbound<'a, H>(slot: &'a HandlerSlot<H>, raw: Option<Vec<u8>>, token: usize) -> (r:
    InboundDecision<'a, H>)
    ensures
        raw is None ==> r is Drop,
        raw is Some && !vstd::utf8::valid_utf8(raw->0@) ==> r is Drop,
        raw is Some && vstd::utf8::valid_utf8(raw->0@) && slot.current() is None ==> (r matches
            InboundDecision::ReplyNoHandler(rep) && rep.wf() && rep.token == token
            && rep.failure is Some && (rep.failure->0).content() == reply_payload("no handler"@)),
        raw is Some && vstd::utf8::valid_utf8(raw->0@) && slot.current() is Some ==> (r matches
            InboundDecision::Run(h, req) && *h == slot.current()->0 && req.token == token
            && req.body@ == vstd::utf8::decode_utf8(raw->0@)),
{
    match crate::boundary::from_foreign(raw) {
        None => InboundDecision::Drop,
        Some(body) => match slot.get() {
            Some(handler) => InboundDecision::Run(handler, InboundRequest { token, body }),
            None => {
                let msg = String::from_str("no handler");
                InboundDecision::ReplyNoHandler(finish_inbound(token, Err(msg)))
            },
        },
    }
}

/// Round trip through the outbound bridge: when the native side answers
/// with payload `s`, the call resolves to `Ok(Some(s))`, and native
/// "no response" resolves to `Ok(None)` — never an error.
pub proof fn lemma_outbound_round_trip(s: String)
    ensures
        settled(CallWait::Replied(Some(s))) == Ok::<Option<String>, BridgeError>(Some(s)),
        settled(CallWait::Replied(None)) == Ok::<Option<String>, BridgeError>(None),
{
}

/// A call nobody answers resolves to `Timeout` once the ceiling passes;
/// and the late answer, arriving after the waiter abandoned its slot, is
/// refused quietly.
pub proof fn lemma_timeout_then_late_reply_benign()
    ensures
        settled(CallWait::TimedOut) == Err::<Option<String>, BridgeError>(BridgeError::Timeout),
        !crate::correlate::completion_accepted(crate::correlate::SlotPhase::Abandoned),
{
}

/// Concurrent inbound requests never cross: every reply carries the token
/// of its own request (as `finish_inbound` ensures), so with distinct
/// tokens, reply `i` pairs with request `j` exactly when `i == j` —
/// each of the N requests is answered exactly once, independently.
pub proof fn lemma_inbound_replies_pair(tokens: Seq<usize>, replies: Seq<InboundReply>)
    requires
        replies.len() == tokens.len(),
        forall|i: int| 0 <= i < replies.len() ==> (#[trigger] replies[i]).token == tokens[i],
        forall|i: int, j: int|
            0 <= i < tokens.len() && 0 <= j < tokens.len() && i != j ==> #[trigger] tokens[i]
                != #[trigger] tokens[j],
    ensures
        forall|i: int, j: int|
            #![trigger replies[i], tokens[j]]
            0 <= i < tokens.len() && 0 <= j < tokens.len() ==> ((replies[i].token == tokens[j])
                <==> i == j),
{
}

} // verus!
