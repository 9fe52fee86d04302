//! The per-node view of a fleet pulse, as the fleet dashboard consumes it.
use vstd::prelude::*;

use crate::fleet_types::FleetNode;

verus! {

/// Summary view of a fleet node for dashboard consumption.
#[derive(Clone, Debug)]
pub struct FleetNodeSummary {
    pub id: String,
    pub role: String,
    pub vote: i8,
    pub health: String,
}

/// The dashboard colour of a node: green unless the node rejects, then yellow.
pub open spec fn node_health_label(vote: i8) -> Seq<char> {
    if vote >= 0 {
        "green"@
    } else {
        "yellow"@
    }
}

/// `summary` is the dashboard view of `node`.
pub open spec fn summarizes(summary: FleetNodeSummary, node: FleetNode) -> bool {
    &&& summary.id@ == node.id@
    &&& summary.role@ == node.role@
    &&& summary.vote == node.ternary_vote
    &&& summary.health@ == node_health_label(node.ternary_vote)
}

/// The dashboard view of one node.
pub fn summarize_node(node: &FleetNode) -> (summary: FleetNodeSummary)
    ensures
        summarizes(summary, *node),
{
    let health = if node.ternary_vote >= 0 {
        "green".to_owned()
    } else {
        "yellow".to_owned()
    };
    FleetNodeSummary {
        id: node.id.clone(),
        role: node.role.clone(),
        vote: node.ternary_vote,
        health,
    }
}

/// The dashboard view of every node, in node order, as a fleet pulse carries it.
pub fn summarize_nodes(nodes: &[FleetNode]) -> (summaries: Vec<FleetNodeSummary>)
    ensures
        summaries@.len() == nodes@.len(),
        forall|i: int| 0 <= i < nodes@.len() ==> summarizes(#[trigger] summaries@[i], nodes@[i]),
{
    let mut summaries: Vec<FleetNodeSummary> = Vec::new();
    let mut i: usize = 0;
    while i < nodes.len()
        invariant
            i <= nodes@.len(),
            summaries@.len() == i,
            forall|j: int| 0 <= j < i ==> summarizes(#[trigger] summaries@[j], nodes@[j]),
        decreases nodes@.len() - i,
    {
        let s = summarize_node(&nodes[i]);
        summaries.push(s);
        i = i + 1;
    }
    summaries
}

/// The dashboard shows a node green exactly when the health check passes it.
pub proof fn summary_green_iff_healthy(summary: FleetNodeSummary, node: FleetNode)
    requires
        summarizes(summary, node),
    ensures
        summary.health@ == "green"@ <==> node.ternary_vote >= 0,
{
    reveal_strlit("green");
    reveal_strlit("yellow");
    if node.ternary_vote < 0 {
        assert(summary.health@.len() != "green"@.len());
    }
}

} // verus!
