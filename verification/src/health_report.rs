//! Health reporting: the fleet-wide report behind the relay's health endpoint.
use vstd::prelude::*;

use crate::fleet_types::{votes_of, FleetNode};
use crate::ratio::SignedRatio;
use crate::ternary_aggregator::{
    aggregate_of, aggregate_votes, count_at_most_total, count_class, count_is_total_iff_all_in_class,
    count_is_zero_iff_none_in_class, net_sentiment_counts, node_votes, tally_partitions, vote_class,
};

verus! {

/// A fleet-wide health report.
#[derive(Clone, Debug)]
pub struct FleetHealth {
    pub status: String,
    pub node_count: usize,
    /// Net sentiment across all nodes: (accepting - rejecting) / nodes, 0 for an empty fleet.
    pub ternary_balance: SignedRatio,
    pub uptime_secs: u64,
}

/// The status a fleet earns from its net vote `net` over `total` nodes: green when the
/// balance `net / total` exceeds 1/5, yellow when it lies in [-1/5, 1/5] (an empty fleet
/// counts as balance 0), red below that.
pub open spec fn health_status(net: int, total: int) -> Seq<char> {
    if 5 * net > total {
        "green"@
    } else if 5 * net >= -total {
        "yellow"@
    } else {
        "red"@
    }
}

/// The net vote of a fleet: accepting nodes minus rejecting nodes.
pub open spec fn net_vote(nodes: Seq<FleetNode>) -> int {
    count_class(votes_of(nodes), 1) - count_class(votes_of(nodes), -1)
}

/// Generate a health report from the current fleet nodes, given how long the fleet has been up.
pub fn generate_health_report(nodes: &[FleetNode], uptime_secs: u64) -> (report: FleetHealth)
    ensures
        report.status@ == health_status(net_vote(nodes@), nodes@.len() as int),
        report.node_count == nodes@.len(),
        report.ternary_balance == aggregate_of(votes_of(nodes@)).net_sentiment,
        report.uptime_secs == uptime_secs,
        nodes@.len() > 0 ==> {
            &&& report.ternary_balance.num == net_vote(nodes@)
            &&& report.ternary_balance.den == nodes@.len()
            &&& (report.status@ == "green"@ <==> 5 * net_vote(nodes@) > nodes@.len())
            &&& (report.status@ == "red"@ <==> 5 * net_vote(nodes@) < -(nodes@.len() as int))
        },
{
    let votes = node_votes(nodes);
    let tally = aggregate_votes(votes.as_slice());
    proof {
        count_at_most_total(votes@, 1);
        count_at_most_total(votes@, -1);
    }
    let net = tally.accept as i128 - tally.reject as i128;
    let total = nodes.len() as i128;
    let status = if 5 * net > total {
        "green".to_owned()
    } else if 5 * net >= -total {
        "yellow".to_owned()
    } else {
        "red".to_owned()
    };
    proof {
        if nodes@.len() > 0 {
            status_matches_balance(nodes@);
            status_by_balance(net_vote(nodes@), nodes@.len() as int);
        }
    }
    FleetHealth {
        status,
        node_count: nodes.len(),
        ternary_balance: tally.net_sentiment,
        uptime_secs,
    }
}

/// Quick check if a single node is healthy based on its ternary vote: it does not reject.
pub fn node_healthy(node: &FleetNode) -> (healthy: bool)
    ensures
        healthy == (node.ternary_vote >= 0),
{
    node.ternary_vote >= 0
}

/// A fleet where every node is healthy is never red; a non-empty fleet where every node
/// accepts is green; a non-empty fleet where every node rejects is red.
pub proof fn status_of_uniform_fleets(nodes: Seq<FleetNode>)
    ensures
        (forall|i: int| 0 <= i < nodes.len() ==> (#[trigger] nodes[i]).ternary_vote >= 0)
            ==> health_status(net_vote(nodes), nodes.len() as int) != "red"@,
        (nodes.len() > 0 && forall|i: int| 0 <= i < nodes.len() ==> (#[trigger] nodes[i]).ternary_vote
            > 0) ==> health_status(net_vote(nodes), nodes.len() as int) == "green"@,
        (nodes.len() > 0 && forall|i: int| 0 <= i < nodes.len() ==> (#[trigger] nodes[i]).ternary_vote
            < 0) ==> health_status(net_vote(nodes), nodes.len() as int) == "red"@,
{
    let votes = votes_of(nodes);
    reveal_strlit("green");
    reveal_strlit("yellow");
    reveal_strlit("red");
    tally_partitions(votes);
    count_at_most_total(votes, 1);
    count_is_zero_iff_none_in_class(votes, -1);
    count_is_total_iff_all_in_class(votes, 1);
    count_is_total_iff_all_in_class(votes, -1);
    if forall|i: int| 0 <= i < nodes.len() ==> (#[trigger] nodes[i]).ternary_vote >= 0 {
        assert forall|i: int| 0 <= i < votes.len() implies vote_class(#[trigger] votes[i]) != -1 by {
            assert(votes[i] == nodes[i].ternary_vote);
        }
        assert("yellow"@.len() != "red"@.len());
    }
    if forall|i: int| 0 <= i < nodes.len() ==> (#[trigger] nodes[i]).ternary_vote > 0 {
        assert forall|i: int| 0 <= i < votes.len() implies vote_class(#[trigger] votes[i]) == 1 by {
            assert(votes[i] == nodes[i].ternary_vote);
        }
    }
    if forall|i: int| 0 <= i < nodes.len() ==> (#[trigger] nodes[i]).ternary_vote < 0 {
        assert forall|i: int| 0 <= i < votes.len() implies vote_class(#[trigger] votes[i]) == -1 by {
            assert(votes[i] == nodes[i].ternary_vote);
        }
    }
}

/// For a non-empty fleet, the status is decided by the balance `net / total` against one
/// fifth: green exactly above 1/5, red exactly below -1/5, yellow in between (bounds included).
pub proof fn status_by_balance(net: int, total: int)
    requires
        total > 0,
    ensures
        health_status(net, total) == "green"@ <==> 5 * net > total,
        health_status(net, total) == "red"@ <==> 5 * net < -total,
        health_status(net, total) == "yellow"@ <==> -total <= 5 * net <= total,
{
    reveal_strlit("green");
    reveal_strlit("yellow");
    reveal_strlit("red");
    assert("green"@.len() == 5 && "yellow"@.len() == 6 && "red"@.len() == 3);
}

/// The status depends only on the balance: scaling the net vote and the fleet size by the same
/// positive factor keeps it.
pub proof fn status_scale_invariant(net: int, total: int, k: int)
    requires
        total > 0,
        k > 0,
    ensures
        health_status(k * net, k * total) == health_status(net, total),
{
    status_by_balance(net, total);
    assert(k * total > 0) by (nonlinear_arith)
        requires
            k > 0,
            total > 0,
    ;
    status_by_balance(k * net, k * total);
    assert((5 * (k * net) > k * total) == (5 * net > total)) by (nonlinear_arith)
        requires
            k > 0,
    ;
    assert((5 * (k * net) < -(k * total)) == (5 * net < -total)) by (nonlinear_arith)
        requires
            k > 0,
    ;
}

/// The report's status and balance agree: for a non-empty fleet, the status is green exactly
/// when the balance exceeds 1/5, red exactly when it is below -1/5, and the balance is the
/// accepting nodes minus the rejecting nodes over the fleet size.
pub proof fn status_matches_balance(nodes: Seq<FleetNode>)
    requires
        0 < nodes.len() <= usize::MAX,
    ensures
        aggregate_of(votes_of(nodes)).net_sentiment.num == net_vote(nodes),
        aggregate_of(votes_of(nodes)).net_sentiment.den == nodes.len(),
        health_status(net_vote(nodes), nodes.len() as int) == "green"@ <==> 5 * aggregate_of(
            votes_of(nodes),
        ).net_sentiment.num > aggregate_of(votes_of(nodes)).net_sentiment.den,
        health_status(net_vote(nodes), nodes.len() as int) == "red"@ <==> 5 * aggregate_of(
            votes_of(nodes),
        ).net_sentiment.num < -(aggregate_of(votes_of(nodes)).net_sentiment.den as int),
{
    net_sentiment_counts(votes_of(nodes));
    status_by_balance(net_vote(nodes), nodes.len() as int);
}

} // verus!
