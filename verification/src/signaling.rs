//! The signaling bridge: routing a control-plane request to the worker that
//! serves its session, and turning the worker's reply into the response the
//! control plane returns.
//!
//! The bridge pairs each request with a single-use reply channel, sends it
//! into the chosen worker's queue, and blocks — for a bounded time — until
//! exactly one response arrives.  Everything the bridge decides is here as a
//! pure function with an exact contract; the embedding program only moves
//! the messages across threads.

use vstd::prelude::*;

use crate::json;
use crate::routing::RoutingTable;
use crate::routing::spec_port_for;
use crate::text;

verus! {

/// A request the control plane sends into a worker.
#[derive(Debug, PartialEq, Eq)]
pub enum SignalingRequest {
    /// A session description offer for one endpoint of a session.
    Offer { session_id: u64, endpoint_id: u64, offer_sdp: String },
    /// An endpoint leaves its session.
    Leave { session_id: u64, endpoint_id: u64 },
}

/// A worker's reply to a signaling request.
#[derive(Debug, PartialEq, Eq)]
pub enum SignalingResponse {
    /// The answering session description for an offer.
    Answer { session_id: u64, endpoint_id: u64, answer_sdp: String },
    /// The request failed for the given reason.
    Fault { session_id: u64, endpoint_id: u64, reason: String },
    /// A bare acknowledgement, carrying no payload.
    Ack { session_id: u64, endpoint_id: u64 },
}

/// What the bridge returns to the control plane for one request.
#[derive(Debug, PartialEq, Eq)]
pub enum BridgeReply {
    /// Success: the answering session description, served verbatim as the
    /// response body with content type `application/json`.
    AnswerJson { body: String },
    /// Success without a body.
    PlainOk,
    /// An internal error with the given reason as the response body.
    InternalError { reason: String },
}

/// The status code a reply is served with.
pub open spec fn spec_reply_status(reply: BridgeReply) -> u16 {
    match reply {
        BridgeReply::AnswerJson { .. } => 200,
        BridgeReply::PlainOk => 200,
        BridgeReply::InternalError { .. } => 500,
    }
}

/// The status code a reply is served with: 200 on either success shape, 500
/// on an internal error.
pub fn reply_status(reply: &BridgeReply) -> (code: u16)
    ensures
        code == spec_reply_status(*reply),
{
    match reply {
        BridgeReply::AnswerJson { .. } => 200,
        BridgeReply::PlainOk => 200,
        BridgeReply::InternalError { .. } => 500,
    }
}

/// The content type a reply is served with, where one is set: only the
/// answering session description carries one.
pub fn reply_content_type(reply: &BridgeReply) -> (content_type: Option<&str>)
    ensures
        match *reply {
            BridgeReply::AnswerJson { .. } => content_type matches Some(t) && t@
                == "application/json"@,
            BridgeReply::PlainOk => content_type is None,
            BridgeReply::InternalError { .. } => content_type is None,
        },
{
    match reply {
        BridgeReply::AnswerJson { .. } => Some("application/json"),
        BridgeReply::PlainOk => None,
        BridgeReply::InternalError { .. } => None,
    }
}

/// How an offer proceeds: dispatched to the worker on the chosen port, or
/// rejected outright when no media port is configured.
#[derive(Debug, PartialEq, Eq)]
pub enum OfferPlan {
    /// Send the request into the queue of the worker on `port` and await one
    /// response.
    Dispatch { port: u16, request: SignalingRequest },
    /// No media port is configured: reply with the capacity error without
    /// contacting any worker.
    NoCapacity,
}

/// Plans an offer: with at least one configured port the offer is framed as
/// JSON and dispatched to the port that serves the session; with none it is
/// rejected before any worker is contacted.
pub fn plan_offer(
    table: &RoutingTable,
    session_id: u64,
    endpoint_id: u64,
    sdp: &str,
    sdp_type: &str,
) -> (plan: OfferPlan)
    ensures
        plan is NoCapacity <==> table@.len() == 0,
        plan matches OfferPlan::Dispatch { port, request } ==> {
            &&& Some(port) == spec_port_for(table@, session_id)
            &&& request matches SignalingRequest::Offer {
                session_id: s,
                endpoint_id: e,
                offer_sdp,
            } && s == session_id && e == endpoint_id && offer_sdp@ == json::spec_offer_json(
                sdp@,
                sdp_type@,
            )
        },
{
    match table.port_for_session(session_id) {
        Some(port) => {
            let offer_sdp = json::encode_offer_json(sdp, sdp_type);
            OfferPlan::Dispatch {
                port,
                request: SignalingRequest::Offer { session_id, endpoint_id, offer_sdp },
            }
        },
        None => OfferPlan::NoCapacity,
    }
}

/// The reply when no media port is configured.
pub fn no_capacity_reply() -> (reply: BridgeReply)
    ensures
        reply matches BridgeReply::InternalError { reason } && reason@
            == "No media port available"@,
{
    BridgeReply::InternalError { reason: String::from_str("No media port available") }
}

/// The reply when the chosen worker's queue is gone — the worker thread has
/// exited — and the request could not be dispatched.
pub fn dispatch_failure_reply() -> (reply: BridgeReply)
    ensures
        reply matches BridgeReply::InternalError { reason } && reason@
            == "Media worker unavailable"@,
{
    BridgeReply::InternalError { reason: String::from_str("Media worker unavailable") }
}

/// The error text for a failed offer, naming the session, the endpoint and
/// the worker's reason.
pub open spec fn spec_offer_error_text(
    session_id: u64,
    endpoint_id: u64,
    reason: Seq<char>,
) -> Seq<char> {
    "Error for session "@ + text::spec_u64_dec(session_id as nat) + " endpoint "@
        + text::spec_u64_dec(endpoint_id as nat) + ": "@ + reason
}

/// The body of the protocol-violation reply to an offer answered with a bare
/// acknowledgement.
pub open spec fn spec_unexpected_ack_text() -> Seq<char> {
    "Received Ok for session endpoint while expecting answer"@
}

/// Turns the worker's response to an offer into the bridge's reply.  An
/// answer is served verbatim as the response body; a fault becomes an
/// internal error naming the session and endpoint; a bare acknowledgement is
/// a protocol violation — an offer expects an answer or a fault — and
/// becomes an internal error rather than a crash.
pub fn classify_offer_response(response: SignalingResponse) -> (reply: BridgeReply)
    ensures
        reply is AnswerJson <==> response is Answer,
        response matches SignalingResponse::Answer { answer_sdp, .. } ==> (
        reply matches BridgeReply::AnswerJson { body } && body@ == answer_sdp@),
        response matches SignalingResponse::Fault { session_id, endpoint_id, reason } ==> (
        reply matches BridgeReply::InternalError { reason: text } && text@
            == spec_offer_error_text(session_id, endpoint_id, reason@)),
        response matches SignalingResponse::Ack { .. } ==> (
        reply matches BridgeReply::InternalError { reason: text } && text@
            == spec_unexpected_ack_text()),
{
    match response {
        SignalingResponse::Answer { answer_sdp, .. } => BridgeReply::AnswerJson {
            body: answer_sdp,
        },
        SignalingResponse::Fault { session_id, endpoint_id, reason } => {
            let mut text = String::from_str("Error for session ");
            let sid = text::u64_to_dec(session_id);
            text.append(sid.as_str());
            text.append(" endpoint ");
            let eid = text::u64_to_dec(endpoint_id);
            text.append(eid.as_str());
            text.append(": ");
            text.append(reason.as_str());
            BridgeReply::InternalError { reason: text }
        },
        SignalingResponse::Ack { .. } => BridgeReply::InternalError {
            reason: String::from_str("Received Ok for session endpoint while expecting answer"),
        },
    }
}

/// How the bridge's bounded wait for the worker's response ended.
#[derive(Debug, PartialEq, Eq)]
pub enum WaitOutcome {
    /// Exactly one response arrived.
    Replied { response: SignalingResponse },
    /// The worker dropped the reply channel without responding.
    ChannelClosed,
    /// The bounded wait elapsed with no response.
    TimedOut,
}

/// Turns the outcome of the bounded wait into the bridge's reply: a response
/// is classified as for any offer; a closed channel or an elapsed wait is an
/// internal error — a stalled or crashed worker must not crash or hang the
/// control plane.
pub fn resolve_offer_wait(outcome: WaitOutcome) -> (reply: BridgeReply)
    ensures
        outcome matches WaitOutcome::Replied { response } ==> {
            &&& reply is AnswerJson <==> response is Answer
            &&& response matches SignalingResponse::Answer { answer_sdp, .. } ==> (
            reply matches BridgeReply::AnswerJson { body } && body@ == answer_sdp@)
            &&& response matches SignalingResponse::Fault { session_id, endpoint_id, reason }
                ==> (reply matches BridgeReply::InternalError { reason: text } && text@
                == spec_offer_error_text(session_id, endpoint_id, reason@))
            &&& response matches SignalingResponse::Ack { .. } ==> (
            reply matches BridgeReply::InternalError { reason: text } && text@
                == spec_unexpected_ack_text())
        },
        outcome is ChannelClosed ==> (reply matches BridgeReply::InternalError { reason } && reason@
            == "Media worker did not respond"@),
        outcome is TimedOut ==> (reply matches BridgeReply::InternalError { reason } && reason@
            == "Timed out waiting for media worker"@),
{
    match outcome {
        WaitOutcome::Replied { response } => classify_offer_response(response),
        WaitOutcome::ChannelClosed => BridgeReply::InternalError {
            reason: String::from_str("Media worker did not respond"),
        },
        WaitOutcome::TimedOut => BridgeReply::InternalError {
            reason: String::from_str("Timed out waiting for media worker"),
        },
    }
}

/// The reply to a leave request: acknowledged unconditionally.  The leave
/// path drives no teardown and has no defined failure; the worker is not
/// consulted.
pub fn leave_reply() -> (reply: BridgeReply)
    ensures
        reply is PlainOk,
{
    BridgeReply::PlainOk
}

} // verus!
