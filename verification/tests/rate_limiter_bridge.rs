use ternary_fleet_integration::rate_limiter_bridge::clamp_vote;
use ternary_fleet_integration::{
    fleet_rate_limit, priority_from_ternary, should_throttle, ternary_token_budget, Ratio,
};

fn as_f64(r: Ratio) -> f64 {
    r.num as f64 / r.den as f64
}

#[test]
fn test_token_budget() {
    assert!((as_f64(ternary_token_budget(1)) - 1.0).abs() < 0.01);
    assert!((as_f64(ternary_token_budget(0)) - 0.5).abs() < 0.01);
    assert!((as_f64(ternary_token_budget(-1)) - 0.1).abs() < 0.01);
}

#[test]
fn test_priority_mapping() {
    assert_eq!(priority_from_ternary(1), 240);
    assert_eq!(priority_from_ternary(0), 128);
    assert_eq!(priority_from_ternary(-1), 16);
}

#[test]
fn test_fleet_rate_limit_mixed() {
    let votes = vec![1, 0, -1];
    let rate = fleet_rate_limit(&votes);
    // (1.0 + 0.5 + 0.1) / 3 ~ 0.533
    assert!((as_f64(rate) - 0.533).abs() < 0.01);
}

#[test]
fn test_fleet_rate_limit_empty() {
    let rate = fleet_rate_limit(&[]);
    assert!((as_f64(rate) - 0.5).abs() < 0.01);
}

#[test]
fn test_throttle() {
    let half = Ratio { num: 1, den: 2 };
    assert!(!should_throttle(1, half)); // 1.0 >= 0.5
    assert!(should_throttle(-1, half)); // 0.1 < 0.5
}

#[test]
fn out_of_range_votes_are_clamped() {
    assert_eq!(clamp_vote(7), 1);
    assert_eq!(clamp_vote(-128), -1);
    assert_eq!(clamp_vote(0), 0);
    assert_eq!(priority_from_ternary(127), 240);
    assert_eq!(priority_from_ternary(-100), 16);
    assert_eq!(ternary_token_budget(42), Ratio { num: 10, den: 10 });
    assert_eq!(ternary_token_budget(-3), Ratio { num: 1, den: 10 });
}

#[test]
fn exact_budgets() {
    assert_eq!(ternary_token_budget(0), Ratio { num: 5, den: 10 });
    assert_eq!(fleet_rate_limit(&[1, 0, -1]), Ratio { num: 16, den: 30 });
    assert_eq!(fleet_rate_limit(&[]), Ratio { num: 1, den: 2 });
    assert_eq!(fleet_rate_limit(&[5, 9]), Ratio { num: 20, den: 20 });
}

#[test]
fn rate_limit_stays_within_a_tenth_and_one() {
    let all_reject = fleet_rate_limit(&[-1, -1, -1, -1]);
    assert_eq!(all_reject, Ratio { num: 4, den: 40 });
    let all_accept = fleet_rate_limit(&[1, 1]);
    assert_eq!(all_accept, Ratio { num: 20, den: 20 });
    for votes in [vec![1i8, -1], vec![0, 0, -1], vec![-5, 3, 0, 1]] {
        let r = fleet_rate_limit(&votes);
        assert!(r.den <= 10 * r.num && r.num <= r.den);
    }
}

#[test]
fn throttle_at_threshold_boundary() {
    // A neutral vote's budget is exactly one half: not below a threshold of one half.
    assert!(!should_throttle(0, Ratio { num: 1, den: 2 }));
    assert!(should_throttle(0, Ratio { num: 51, den: 100 }));
    assert!(!should_throttle(-1, Ratio { num: 1, den: 10 }));
    assert!(!should_throttle(-1, Ratio { num: 0, den: 1 }));
}

#[test]
fn priority_and_budget_follow_votes() {
    let mut prev_priority = 0u8;
    let mut prev_budget = 0u64;
    for v in -128i16..=127 {
        let v = v as i8;
        let p = priority_from_ternary(v);
        let b = ternary_token_budget(v).num;
        assert!(p >= prev_priority);
        assert!(b >= prev_budget);
        prev_priority = p;
        prev_budget = b;
    }
}
