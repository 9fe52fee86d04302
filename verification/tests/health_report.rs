use ternary_fleet_integration::{generate_health_report, node_healthy, FleetNode, SignedRatio};

fn node(id: &str, vote: i8) -> FleetNode {
    FleetNode { id: id.into(), role: "worker".into(), capabilities: vec![], ternary_vote: vote }
}

fn signed_f64(r: SignedRatio) -> f64 {
    r.num as f64 / r.den as f64
}

#[test]
fn test_healthy_fleet() {
    let nodes = vec![node("alice", 1), node("bob", 1)];
    let report = generate_health_report(&nodes, 0);
    assert_eq!(report.status, "green");
    assert_eq!(report.node_count, 2);
    assert!((signed_f64(report.ternary_balance) - 1.0).abs() < 0.01);
}

#[test]
fn test_unhealthy_fleet() {
    let nodes = vec![node("mallory", -1)];
    let report = generate_health_report(&nodes, 0);
    assert_eq!(report.status, "red");
    assert!((signed_f64(report.ternary_balance) - (-1.0)).abs() < 0.01);
}

#[test]
fn test_node_healthy() {
    let healthy = node("h", 1);
    let unhealthy = node("u", -1);
    assert!(node_healthy(&healthy));
    assert!(!node_healthy(&unhealthy));
}

#[test]
fn neutral_node_is_healthy() {
    assert!(node_healthy(&node("n", 0)));
    assert!(!node_healthy(&node("x", -128)));
}

#[test]
fn status_thresholds_are_a_fifth() {
    // balance exactly 1/5: yellow, not green
    let edge = vec![node("a", 1), node("b", 0), node("c", 0), node("d", 0), node("e", 0)];
    assert_eq!(generate_health_report(&edge, 0).status, "yellow");
    // balance 2/5: green
    let green = vec![node("a", 1), node("b", 1), node("c", 0), node("d", 0), node("e", 0)];
    assert_eq!(generate_health_report(&green, 0).status, "green");
    // balance exactly -1/5: yellow
    let low = vec![node("a", -1), node("b", 0), node("c", 0), node("d", 0), node("e", 0)];
    assert_eq!(generate_health_report(&low, 0).status, "yellow");
    // balance -2/5: red
    let red = vec![node("a", -1), node("b", -1), node("c", 0), node("d", 0), node("e", 0)];
    assert_eq!(generate_health_report(&red, 0).status, "red");
}

#[test]
fn empty_fleet_is_yellow() {
    let report = generate_health_report(&[], 42);
    assert_eq!(report.status, "yellow");
    assert_eq!(report.node_count, 0);
    assert_eq!(report.ternary_balance, SignedRatio { num: 0, den: 1 });
    assert_eq!(report.uptime_secs, 42);
}

#[test]
fn healthy_fleet_is_never_red() {
    let nodes = vec![node("a", 0), node("b", 0), node("c", 0)];
    assert_eq!(generate_health_report(&nodes, 0).status, "yellow");
    let report = generate_health_report(&[node("a", 1), node("b", -1), node("c", 1)], 7);
    assert_eq!(report.ternary_balance, SignedRatio { num: 1, den: 3 });
    assert_eq!(report.status, "green");
}
