//! The backend's side of the relay: where a call goes, what it carries, and
//! how its end is read.

use crate::operation::Operation;
use crate::request::{ChaosRequest, ChaosRequestView};
use vstd::prelude::*;

verus! {

/// `reqwest::Error`, with which an exchange that did not complete ends.
/// Declared so that it can be handed in; nothing inside it is visible here.
#[verifier::external_type_specification]
#[verifier::external_body]
pub struct ExTransportError(reqwest::Error);

/// `reqwest::Response`, with which an exchange that completed ends. Declared
/// so that it can be handed in; the relay never looks inside it.
#[verifier::external_type_specification]
#[verifier::external_body]
pub struct ExBackendResponse(reqwest::Response);

/// The text of a transport error: what `reqwest::Error` writes through its
/// `Display` implementation, taken by `to_string`.
///
/// Trusted, not proved: the text is not empty. In `reqwest` that
/// implementation first writes a fixed phrase for the kind of error, and only
/// then appends the URL and the cause where it has them, so the phrase at
/// least is always there. Nothing else is claimed of the text.
#[verifier::external_body]
fn failure_description(error: &reqwest::Error) -> (description: String)
    ensures
        description@.len() > 0,
{
    error.to_string()
}

/// How the one backend call of a request ended.
#[derive(Debug, PartialEq, Eq)]
pub enum Outcome {
    /// The request was sent and a response came back, of whatever status.
    Dispatched,
    /// The exchange did not complete; the text is the transport's own
    /// description of why.
    TransportFailure(String),
}

/// An outcome as a mathematical value.
pub enum OutcomeView {
    Dispatched,
    TransportFailure(Seq<char>),
}

impl View for Outcome {
    type V = OutcomeView;

    open spec fn view(&self) -> OutcomeView {
        match self {
            Outcome::Dispatched => OutcomeView::Dispatched,
            Outcome::TransportFailure(description) => OutcomeView::TransportFailure(description@),
        }
    }
}

impl Outcome {
    /// Reads the end of an exchange. Any response counts as dispatched: its
    /// status and body are dropped unread. Only an exchange that failed in
    /// transport is a failure, and its description is never empty.
    pub fn from_exchange(exchange: Result<reqwest::Response, reqwest::Error>) -> (outcome:
        Outcome)
        ensures
            exchange is Ok <==> outcome@ is Dispatched,
            exchange is Err ==> outcome@ is TransportFailure && outcome@->0.len() > 0,
    {
        match exchange {
            Ok(_) => Outcome::Dispatched,
            Err(error) => Outcome::TransportFailure(failure_description(&error)),
        }
    }
}

/// The one call that the relay makes to the backend for a request: an HTTP
/// POST to `url` with `body` as its JSON payload.
#[derive(Debug, PartialEq, Eq)]
pub struct OutboundCall {
    pub url: String,
    pub body: ChaosRequest,
}

/// An outbound call as a mathematical value.
pub struct OutboundCallView {
    pub url: Seq<char>,
    pub body: ChaosRequestView,
}

impl View for OutboundCall {
    type V = OutboundCallView;

    open spec fn view(&self) -> OutboundCallView {
        OutboundCallView { url: self.url@, body: self.body@ }
    }
}

/// The address of an operation at the backend: the base address with the
/// operation's backend path appended, nothing between them.
pub open spec fn spec_backend_url(base: Seq<char>, op: Operation) -> Seq<char> {
    base + op.spec_backend_path()
}

/// The address of an operation at the backend.
pub fn backend_url(base: &str, op: Operation) -> (url: String)
    ensures
        url@ == spec_backend_url(base@, op),
{
    base.to_owned().concat(op.backend_path())
}

} // verus!
