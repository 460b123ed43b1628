//! The three chaos operations and the paths they are bound to.

use vstd::prelude::*;

verus! {

/// A fault-injection action applied to the simulated network.
#[derive(Clone, Copy, Debug, PartialEq, Eq, Hash, Structural)]
pub enum Operation {
    Partition,
    Heal,
    Latency,
}

impl Operation {
    /// The path on which the relay accepts this operation.
    pub open spec fn spec_inbound_path(self) -> Seq<char> {
        match self {
            Operation::Partition => "/v1/partition"@,
            Operation::Heal => "/v1/heal"@,
            Operation::Latency => "/v1/latency"@,
        }
    }

    /// The path, below the backend's base address, to which this operation is
    /// relayed.
    pub open spec fn spec_backend_path(self) -> Seq<char> {
        match self {
            Operation::Partition => "/chaos/partition"@,
            Operation::Heal => "/chaos/heal"@,
            Operation::Latency => "/chaos/latency"@,
        }
    }

    /// The path on which the relay accepts this operation.
    pub fn inbound_path(self) -> (path: &'static str)
        ensures
            path@ == self.spec_inbound_path(),
    {
        match self {
            Operation::Partition => "/v1/partition",
            Operation::Heal => "/v1/heal",
            Operation::Latency => "/v1/latency",
        }
    }

    /// The path, below the backend's base address, to which this operation is
    /// relayed.
    pub fn backend_path(self) -> (path: &'static str)
        ensures
            path@ == self.spec_backend_path(),
    {
        match self {
            Operation::Partition => "/chaos/partition",
            Operation::Heal => "/chaos/heal",
            Operation::Latency => "/chaos/latency",
        }
    }

    /// The operation bound to an inbound request path, if there is one. Paths
    /// are matched whole and exactly.
    pub fn from_inbound_path(path: &str) -> (found: Option<Operation>)
        ensures
            match found {
                Some(op) => path@ == op.spec_inbound_path(),
                None => forall|op: Operation| path@ != op.spec_inbound_path(),
            },
    {
        if same_text(path, Operation::Partition.inbound_path()) {
            Some(Operation::Partition)
        } else if same_text(path, Operation::Heal.inbound_path()) {
            Some(Operation::Heal)
        } else if same_text(path, Operation::Latency.inbound_path()) {
            Some(Operation::Latency)
        } else {
            None
        }
    }
}

/// Whether two string slices hold the same characters.
fn same_text(a: &str, b: &str) -> (same: bool)
    ensures
        same == (a@ == b@),
{
    let left: String = a.to_owned();
    let right: String = b.to_owned();
    left == right
}

} // verus!
