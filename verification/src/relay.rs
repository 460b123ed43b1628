//! The relay proper: one adapter per operation, from an inbound body to the
//! backend call that carries it, and from that call's end to the envelope.
//!
//! A request is handled in two steps with the backend exchange between them.
//! First a handler plans the single outbound call. The embedding program
//! performs it. Then [`conclude`] turns whatever the exchange gave into the
//! envelope for the caller. Neither step keeps anything: each request is
//! answered from its own values alone.

use crate::backend::{
    backend_url, spec_backend_url, OutboundCall, OutboundCallView, Outcome, OutcomeView,
};
use crate::envelope::{error_status, ok_status, ResponseEnvelope};
use crate::operation::Operation;
use crate::request::{ChaosRequest, ChaosRequestView};
use vstd::prelude::*;

verus! {

/// The backend call that relays `body` for `op`: addressed to the operation's
/// backend path below `base`, with the body as it arrived.
pub open spec fn planned_call(
    base: Seq<char>,
    op: Operation,
    body: ChaosRequestView,
) -> OutboundCallView {
    OutboundCallView { url: spec_backend_url(base, op), body }
}

/// The status text that answers a request whose backend call ended in
/// `outcome`.
pub open spec fn status_for(outcome: OutcomeView) -> Seq<char> {
    match outcome {
        OutcomeView::Dispatched => ok_status(),
        OutcomeView::TransportFailure(description) => error_status(description),
    }
}

/// Plans the backend call for a request to `op`. The body is neither read nor
/// changed.
pub fn handle(op: Operation, body: ChaosRequest, base: &str) -> (call: OutboundCall)
    ensures
        call@ == planned_call(base@, op, body@),
{
    OutboundCall { url: backend_url(base, op), body }
}

/// Plans the backend call for a partition request.
pub fn handle_partition(body: ChaosRequest, base: &str) -> (call: OutboundCall)
    ensures
        call@ == planned_call(base@, Operation::Partition, body@),
{
    handle(Operation::Partition, body, base)
}

/// Plans the backend call for a heal request.
pub fn handle_heal(body: ChaosRequest, base: &str) -> (call: OutboundCall)
    ensures
        call@ == planned_call(base@, Operation::Heal, body@),
{
    handle(Operation::Heal, body, base)
}

/// Plans the backend call for a latency request.
pub fn handle_latency(body: ChaosRequest, base: &str) -> (call: OutboundCall)
    ensures
        call@ == planned_call(base@, Operation::Latency, body@),
{
    handle(Operation::Latency, body, base)
}

/// The envelope for a request whose backend call ended in `outcome`: `ok`
/// for a dispatched call, the failure's description behind `error: `
/// otherwise.
pub fn respond(outcome: &Outcome) -> (envelope: ResponseEnvelope)
    ensures
        envelope@ == status_for(outcome@),
{
    match outcome {
        Outcome::Dispatched => ResponseEnvelope::ok(),
        Outcome::TransportFailure(description) => ResponseEnvelope::error(description.as_str()),
    }
}

/// The envelope for a request, from what the backend exchange gave. A
/// response of any status is answered with `ok`; a transport error with
/// `error: ` and the transport's description of it, which is never empty.
pub fn conclude(exchange: Result<reqwest::Response, reqwest::Error>) -> (envelope:
    ResponseEnvelope)
    ensures
        exchange is Ok ==> envelope@ == ok_status(),
        exchange is Err ==> exists|description: Seq<char>|
            description.len() > 0 && envelope@ == #[trigger] error_status(description),
{
    let outcome = Outcome::from_exchange(exchange);
    respond(&outcome)
}

} // verus!
