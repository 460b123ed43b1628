//! What holds of the relay as a whole, proved over the same spec functions
//! that the contracts of its functions use.

use crate::backend::OutcomeView;
use crate::envelope::{error_prefix, error_status, is_canonical, ok_status, reports_failure};
use crate::operation::Operation;
use crate::relay::{planned_call, status_for};
use crate::request::ChaosRequestView;
use vstd::prelude::*;

verus! {

/// A path names at most one operation: no two operations share an inbound
/// path, and no two share a backend path.
pub proof fn law_paths_distinct(a: Operation, b: Operation)
    ensures
        a.spec_inbound_path() == b.spec_inbound_path() ==> a == b,
        a.spec_backend_path() == b.spec_backend_path() ==> a == b,
{
    reveal_strlit("/v1/partition");
    reveal_strlit("/v1/heal");
    reveal_strlit("/v1/latency");
    reveal_strlit("/chaos/partition");
    reveal_strlit("/chaos/heal");
    reveal_strlit("/chaos/latency");
    assert("/v1/partition"@.len() == 13 && "/v1/heal"@.len() == 8 && "/v1/latency"@.len() == 11);
    assert("/chaos/partition"@.len() == 16 && "/chaos/heal"@.len() == 11
        && "/chaos/latency"@.len() == 14);
}

/// The backend path of an operation is its inbound path with the leading
/// `/v1` replaced by `/chaos`: what follows the prefix is the same on both
/// sides.
pub proof fn law_backend_path_matches_inbound(op: Operation)
    ensures
        "/v1"@.is_prefix_of(op.spec_inbound_path()),
        op.spec_backend_path() == "/chaos"@ + op.spec_inbound_path().skip("/v1"@.len() as int),
{
    reveal_strlit("/v1");
    reveal_strlit("/chaos");
    reveal_strlit("/v1/partition");
    reveal_strlit("/v1/heal");
    reveal_strlit("/v1/latency");
    reveal_strlit("/chaos/partition");
    reveal_strlit("/chaos/heal");
    reveal_strlit("/chaos/latency");
    assert("/v1"@.len() == 3 && "/chaos"@.len() == 6);
    assert("/v1/partition"@.len() == 13 && "/v1/heal"@.len() == 8 && "/v1/latency"@.len() == 11);
    assert("/chaos/partition"@.len() == 16 && "/chaos/heal"@.len() == 11
        && "/chaos/latency"@.len() == 14);
    assert("/v1"@ =~= op.spec_inbound_path().subrange(0, 3));
    assert(op.spec_backend_path() =~= "/chaos"@ + op.spec_inbound_path().skip(3));
}

/// A request that arrived on an operation's inbound path is relayed to the
/// base address followed by `/chaos` and the rest of that inbound path,
/// whatever the base address and the body are.
pub proof fn law_outbound_address_follows_inbound_path(
    base: Seq<char>,
    path: Seq<char>,
    op: Operation,
    body: ChaosRequestView,
)
    requires
        path == op.spec_inbound_path(),
    ensures
        planned_call(base, op, body).url == base + "/chaos"@ + path.skip("/v1"@.len() as int),
{
    law_backend_path_matches_inbound(op);
    assert(base + ("/chaos"@ + path.skip("/v1"@.len() as int)) =~= base + "/chaos"@ + path.skip(
        "/v1"@.len() as int,
    ));
}

/// The planned call tells its request from every other against the same
/// backend: two requests are given the same call only if they name the same
/// operation and carry the same body.
pub proof fn law_call_identifies_request(
    base: Seq<char>,
    op_a: Operation,
    body_a: ChaosRequestView,
    op_b: Operation,
    body_b: ChaosRequestView,
)
    ensures
        planned_call(base, op_a, body_a) == planned_call(base, op_b, body_b) <==> op_a == op_b
            && body_a == body_b,
{
    if planned_call(base, op_a, body_a) == planned_call(base, op_b, body_b) {
        let left = base + op_a.spec_backend_path();
        let right = base + op_b.spec_backend_path();
        assert(left == right);
        assert(op_a.spec_backend_path() =~= left.skip(base.len() as int));
        assert(op_b.spec_backend_path() =~= right.skip(base.len() as int));
        law_paths_distinct(op_a, op_b);
    }
}

/// The two forms of a status exclude each other: `ok` does not report a
/// failure.
pub proof fn law_ok_is_not_failure()
    ensures
        !reports_failure(ok_status()),
{
    reveal_strlit("ok");
    reveal_strlit("error: ");
    assert("ok"@.len() == 2 && "error: "@.len() == 7);
}

/// Every status that the relay gives is canonical, and it is `ok` exactly
/// when the backend call was dispatched.
pub proof fn law_status_is_canonical(outcome: OutcomeView)
    ensures
        is_canonical(status_for(outcome)),
        status_for(outcome) == ok_status() <==> outcome is Dispatched,
        reports_failure(status_for(outcome)) <==> outcome is TransportFailure,
{
    law_ok_is_not_failure();
    match outcome {
        OutcomeView::Dispatched => {},
        OutcomeView::TransportFailure(description) => {
            assert(error_prefix() =~= error_status(description).subrange(
                0,
                error_prefix().len() as int,
            ));
        },
    }
}

/// A failure status holds the whole description and nothing else behind the
/// prefix: dropping the prefix gives the description back.
pub proof fn law_error_status_keeps_description(description: Seq<char>)
    ensures
        error_status(description).skip(error_prefix().len() as int) == description,
        error_status(description).len() == error_prefix().len() + description.len(),
{
    assert(error_status(description).skip(error_prefix().len() as int) =~= description);
}

/// An envelope answers for its own backend call and no other: two calls are
/// answered with the same status only if they ended alike, with the same
/// description where they failed.
pub proof fn law_status_identifies_outcome(a: OutcomeView, b: OutcomeView)
    ensures
        status_for(a) == status_for(b) <==> a == b,
{
    law_status_is_canonical(a);
    law_status_is_canonical(b);
    if status_for(a) == status_for(b) {
        match (a, b) {
            (OutcomeView::TransportFailure(left), OutcomeView::TransportFailure(right)) => {
                law_error_status_keeps_description(left);
                law_error_status_keeps_description(right);
            },
            _ => {},
        }
    }
}

} // verus!
