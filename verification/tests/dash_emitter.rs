use ternary_fleet_integration::{node_healthy, summarize_node, summarize_nodes, FleetNode};

fn node(id: &str, role: &str, caps: &[&str], vote: i8) -> FleetNode {
    FleetNode {
        id: id.into(),
        role: role.into(),
        capabilities: caps.iter().map(|c| c.to_string()).collect(),
        ternary_vote: vote,
    }
}

#[test]
fn pulse_summaries_follow_nodes() {
    let nodes = vec![
        node("node-1", "worker", &["compute"], 1),
        node("node-2", "validator", &["audit"], -1),
    ];
    let summaries = summarize_nodes(&nodes);
    assert_eq!(summaries.len(), 2);
    assert_eq!(summaries[0].id, "node-1");
    assert_eq!(summaries[0].role, "worker");
    assert_eq!(summaries[0].vote, 1);
    assert_eq!(summaries[0].health, "green");
    assert_eq!(summaries[1].id, "node-2");
    assert_eq!(summaries[1].role, "validator");
    assert_eq!(summaries[1].vote, -1);
    assert_eq!(summaries[1].health, "yellow");
}

#[test]
fn summary_is_green_exactly_when_node_is_healthy() {
    for v in [-128i8, -1, 0, 1, 127] {
        let n = node("n", "worker", &[], v);
        assert_eq!(summarize_node(&n).health == "green", node_healthy(&n));
    }
}

#[test]
fn empty_pulse_has_no_summaries() {
    assert!(summarize_nodes(&[]).is_empty());
}
