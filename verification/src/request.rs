//! The body of a chaos command.

use vstd::prelude::*;

verus! {

/// What a caller asks for: the region to act on and, for latency injection,
/// the delay. The relay reads neither field; it carries both through as they
/// came.
#[derive(Debug, PartialEq, Eq)]
pub struct ChaosRequest {
    /// The segment of the simulated topology that the command targets.
    pub region: String,
    /// The delay to inject, in milliseconds, where the caller gave one.
    pub latency_ms: Option<u64>,
}

/// A chaos request as a mathematical value.
pub struct ChaosRequestView {
    pub region: Seq<char>,
    pub latency_ms: Option<u64>,
}

impl View for ChaosRequest {
    type V = ChaosRequestView;

    open spec fn view(&self) -> ChaosRequestView {
        ChaosRequestView { region: self.region@, latency_ms: self.latency_ms }
    }
}

} // verus!
