use ternary_fleet_integration::{
    aggregate_votes, has_consensus, node_votes, FleetNode, Ratio, SignedRatio,
};

fn as_f64(r: Ratio) -> f64 {
    r.num as f64 / r.den as f64
}

fn signed_f64(r: SignedRatio) -> f64 {
    r.num as f64 / r.den as f64
}

fn node(id: &str, vote: i8) -> FleetNode {
    FleetNode { id: id.into(), role: "worker".into(), capabilities: vec![], ternary_vote: vote }
}

#[test]
fn test_all_accept() {
    let votes: Vec<i8> = vec![1, 1, 1];
    let r = aggregate_votes(&votes);
    assert_eq!(r.accept, 3);
    assert_eq!(r.reject, 0);
    assert!((as_f64(r.confidence) - 1.0).abs() < 0.01);
    assert!((signed_f64(r.net_sentiment) - 1.0).abs() < 0.01);
}

#[test]
fn test_exact_split() {
    let votes: Vec<i8> = vec![1, -1];
    let r = aggregate_votes(&votes);
    assert_eq!(r.accept, 1);
    assert_eq!(r.reject, 1);
    assert!((as_f64(r.confidence) - 0.5).abs() < 0.01);
    assert!((signed_f64(r.net_sentiment) - 0.0).abs() < 0.01);
}

#[test]
fn test_has_consensus() {
    let votes: Vec<i8> = vec![1, 1, -1];
    let r = aggregate_votes(&votes);
    assert!(has_consensus(&r, Ratio { num: 1, den: 2 })); // 2/3 > 0.5
    assert!(!has_consensus(&r, Ratio { num: 3, den: 4 })); // 2/3 < 0.75
}

#[test]
fn test_empty() {
    let votes: Vec<i8> = vec![];
    let r = aggregate_votes(&votes);
    assert_eq!(r.total, 0);
    assert!((as_f64(r.confidence) - 0.0).abs() < 0.01);
}

#[test]
fn exact_tally() {
    let r = aggregate_votes(&[3, 0, -2, 0, 1, -1, 0]);
    assert_eq!((r.total, r.accept, r.neutral, r.reject), (7, 2, 3, 2));
    assert_eq!(r.agreeing(), 3);
    assert_eq!(r.confidence, Ratio { num: 3, den: 7 });
    assert_eq!(r.net_sentiment, SignedRatio { num: 0, den: 7 });
    let empty = aggregate_votes(&[]);
    assert_eq!(empty.confidence, Ratio { num: 0, den: 1 });
    assert_eq!(empty.net_sentiment, SignedRatio { num: 0, den: 1 });
    assert_eq!(empty.agreeing(), 0);
}

#[test]
fn tallies_add_up_over_joined_fleets() {
    let a = [1i8, 0, -1, 1];
    let b = [-1i8, -1, 0];
    let joined: Vec<i8> = a.iter().chain(b.iter()).copied().collect();
    let (ra, rb, rj) = (aggregate_votes(&a), aggregate_votes(&b), aggregate_votes(&joined));
    assert_eq!(rj.accept, ra.accept + rb.accept);
    assert_eq!(rj.neutral, ra.neutral + rb.neutral);
    assert_eq!(rj.reject, ra.reject + rb.reject);
    assert_eq!(rj.total, rj.accept + rj.neutral + rj.reject);
}

#[test]
fn confidence_is_one_only_when_unanimous() {
    let unanimous = aggregate_votes(&[-1, -4, -1]);
    assert_eq!(unanimous.confidence, Ratio { num: 3, den: 3 });
    let split = aggregate_votes(&[1, 0, -1]);
    assert_eq!(split.confidence, Ratio { num: 1, den: 3 });
    assert!(split.confidence.den <= 3 * split.confidence.num);
}

#[test]
fn net_sentiment_stays_within_one() {
    let r = aggregate_votes(&[-1, -1, -1, 0]);
    assert_eq!(r.net_sentiment, SignedRatio { num: -3, den: 4 });
    assert!(r.net_sentiment.num.abs() <= r.net_sentiment.den as i128);
}

#[test]
fn no_consensus_without_votes() {
    let r = aggregate_votes(&[]);
    assert!(!has_consensus(&r, Ratio { num: 0, den: 1 }));
    let one = aggregate_votes(&[0]);
    assert!(has_consensus(&one, Ratio { num: 1, den: 1 }));
}

#[test]
fn votes_follow_node_order() {
    let nodes = vec![node("a", 1), node("b", -1), node("c", 0)];
    assert_eq!(node_votes(&nodes), vec![1, -1, 0]);
    assert_eq!(node_votes(&[]), Vec::<i8>::new());
}
