//! Composition contract of the protocol handler pipeline.
//!
//! Every inbound network unit runs through a fixed, ordered chain of
//! protocol stages.  The stages themselves are opaque to this core; what the
//! core owns is their exact order — in particular that the exception sink is
//! the terminal stage, so a fault raised anywhere in the chain is caught
//! there, scoped to its originating session, and never unwinds into the
//! worker loop.

use vstd::prelude::*;

verus! {

/// The protocol stages of the pipeline, in the roles the chain composes.
#[derive(PartialEq, Eq, Structural, Clone, Copy, Debug)]
pub enum StageKind {
    /// Splits the shared socket's traffic by sub-protocol.
    Demultiplexer,
    /// Connectivity checks and binding.
    Stun,
    /// Handshake and record protection.
    Dtls,
    /// Reliable message transport over the secured channel.
    Sctp,
    /// Application data channels.
    DataChannel,
    /// Media packet protection.
    Srtp,
    /// Per-packet interceptors (reports, statistics).
    Interceptor,
    /// Forwarding between the endpoints of a session.
    Gateway,
    /// Catches every fault raised upstream and scopes it to the originating
    /// session.
    ExceptionSink,
}

/// The fixed composition order of the pipeline.
pub open spec fn spec_stage_order() -> Seq<StageKind> {
    seq![
        StageKind::Demultiplexer,
        StageKind::Stun,
        StageKind::Dtls,
        StageKind::Sctp,
        StageKind::DataChannel,
        StageKind::Srtp,
        StageKind::Interceptor,
        StageKind::Gateway,
        StageKind::ExceptionSink,
    ]
}

/// The order in which the embedding program must add the stages to the
/// chain, front to back.
pub fn stage_order() -> (order: Vec<StageKind>)
    ensures
        order@ == spec_stage_order(),
{
    let mut order: Vec<StageKind> = Vec::new();
    order.push(StageKind::Demultiplexer);
    order.push(StageKind::Stun);
    order.push(StageKind::Dtls);
    order.push(StageKind::Sctp);
    order.push(StageKind::DataChannel);
    order.push(StageKind::Srtp);
    order.push(StageKind::Interceptor);
    order.push(StageKind::Gateway);
    order.push(StageKind::ExceptionSink);
    proof {
        assert(order@ =~= spec_stage_order());
    }
    order
}

/// The exception sink is the terminal stage of the chain, and occurs nowhere
/// else: every upstream fault reaches it before it could leave the pipeline.
pub proof fn lemma_exception_sink_terminal()
    ensures
        spec_stage_order().len() > 0,
        spec_stage_order().last() == StageKind::ExceptionSink,
        forall|i: int|
            0 <= i < spec_stage_order().len() - 1 ==> spec_stage_order()[i]
                != StageKind::ExceptionSink,
{
}

} // verus!
