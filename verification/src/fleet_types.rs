//! The fleet's data model as the library reads it.
use vstd::prelude::*;

verus! {

/// A node within the fleet: its identity, role, capabilities and current ternary vote.
#[derive(Clone, Debug)]
pub struct FleetNode {
    pub id: String,
    pub role: String,
    pub capabilities: Vec<String>,
    pub ternary_vote: i8,
}

/// The votes that a sequence of nodes casts, in node order.
pub open spec fn votes_of(nodes: Seq<FleetNode>) -> Seq<i8> {
    nodes.map_values(|n: FleetNode| n.ternary_vote)
}

} // verus!
