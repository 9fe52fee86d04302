//! Map ternary votes to request budgets and priority levels.
use vstd::prelude::*;

use crate::ratio::Ratio;
use crate::ternary_aggregator::{count_class, vote_class};

verus! {

/// The priority level that a vote earns: accepting votes (any positive value)
/// rank highest, neutral ones in the middle, rejecting ones (any negative value) lowest.
pub open spec fn priority_level(vote: int) -> u8 {
    if vote > 0 {
        240
    } else if vote == 0 {
        128
    } else {
        16
    }
}

/// A vote clamped to the ternary range [-1, 1].
pub open spec fn clamped(vote: int) -> int {
    if vote > 1 {
        1
    } else if vote < -1 {
        -1
    } else {
        vote
    }
}

/// Clamp a raw vote to the ternary range [-1, 1].
pub fn clamp_vote(vote: i8) -> (c: i8)
    ensures
        c == clamped(vote as int),
{
    if vote > 1 {
        1
    } else if vote < -1 {
        -1
    } else {
        vote
    }
}

/// Map a ternary vote to a priority level (0-255).
/// +1 = highest priority, 0 = normal, -1 = lowest; other values are clamped to [-1, 1] first.
pub fn priority_from_ternary(vote: i8) -> (priority: u8)
    ensures
        priority == priority_level(vote as int),
{
    match clamp_vote(vote) {
        1 => 240,
        0 => 128,
        -1 => 16,
        _ => 128,
    }
}

} // verus!

verus! {

/// The token budget of a vote, in tenths of the full budget: accepting votes get the full
/// budget, neutral ones half of it, rejecting ones a tenth.
pub open spec fn budget_tenths(vote: int) -> nat {
    if vote > 0 {
        10
    } else if vote == 0 {
        5
    } else {
        1
    }
}

/// Map a ternary vote to a token budget multiplier, as a fraction of the full budget.
/// +1 (accept) = full budget, 0 (neutral) = half budget, -1 (reject) = minimal budget (a tenth);
/// other values are clamped to [-1, 1] first.
pub fn ternary_token_budget(vote: i8) -> (budget: Ratio)
    ensures
        budget.num == budget_tenths(vote as int),
        budget.den == 10,
{
    match clamp_vote(vote) {
        1 => Ratio { num: 10, den: 10 },
        0 => Ratio { num: 5, den: 10 },
        -1 => Ratio { num: 1, den: 10 },
        _ => Ratio { num: 5, den: 10 },
    }
}

/// The sum of the budgets of `votes`, in tenths.
pub open spec fn budget_sum(votes: Seq<i8>) -> nat
    decreases votes.len(),
{
    if votes.len() == 0 {
        0
    } else {
        budget_sum(votes.drop_last()) + budget_tenths(votes.last() as int)
    }
}

/// Each vote's budget lies between a tenth and the whole, so their sum lies between
/// `votes.len()` and `10 * votes.len()` tenths.
pub proof fn budget_sum_bounds(votes: Seq<i8>)
    ensures
        votes.len() <= budget_sum(votes) <= 10 * votes.len(),
    decreases votes.len(),
{
    if votes.len() > 0 {
        budget_sum_bounds(votes.drop_last());
    }
}

/// Compute the aggregate rate limit from a set of ternary votes: the mean budget of the
/// votes, or a half for no votes. The result always lies in [1/10, 1].
pub fn fleet_rate_limit(votes: &[i8]) -> (rate: Ratio)
    requires
        votes@.len() * 10 <= u64::MAX,
    ensures
        votes@.len() == 0 ==> rate == (Ratio { num: 1, den: 2 }),
        votes@.len() > 0 ==> rate.num == budget_sum(votes@) && rate.den == 10 * votes@.len(),
        votes@.len() > 0 ==> rate.num == 10 * count_class(votes@, 1) + 5 * count_class(votes@, 0)
            + count_class(votes@, -1),
        rate.wf(),
        rate.den <= 10 * rate.num,
        rate.num <= rate.den,
{
    let n = votes.len();
    if n == 0 {
        return Ratio { num: 1, den: 2 };
    }
    let mut sum: u64 = 0;
    let mut i: usize = 0;
    while i < n
        invariant
            n == votes@.len(),
            n * 10 <= u64::MAX,
            i <= n,
            sum == budget_sum(votes@.take(i as int)),
        decreases n - i,
    {
        assert(votes@.take(i + 1).drop_last() =~= votes@.take(i as int));
        proof {
            budget_sum_bounds(votes@.take(i as int));
        }
        let b = ternary_token_budget(votes[i]);
        sum = sum + b.num;
        i = i + 1;
    }
    assert(votes@.take(n as int) =~= votes@);
    proof {
        budget_sum_bounds(votes@);
        budget_sum_by_class(votes@);
    }
    Ratio { num: sum, den: 10 * n as u64 }
}

/// Determine if a request should be throttled: the vote's token budget falls below `threshold`.
pub fn should_throttle(vote: i8, threshold: Ratio) -> (throttle: bool)
    ensures
        throttle == (budget_tenths(vote as int) * threshold.den < threshold.num * 10),
{
    let budget = ternary_token_budget(vote);
    proof {
        assert(budget.num * threshold.den <= 10 * u64::MAX) by (nonlinear_arith)
            requires
                budget.num <= 10,
                threshold.den <= u64::MAX,
        ;
    }
    let lhs = budget.num as u128 * threshold.den as u128;
    let rhs = threshold.num as u128 * 10;
    lhs < rhs
}

/// Priorities follow votes: a vote never earns a lower priority than a smaller vote, and only
/// the clamped vote matters.
pub proof fn priority_monotone(lower: int, higher: int)
    requires
        lower <= higher,
    ensures
        priority_level(lower) <= priority_level(higher),
        priority_level(lower) == priority_level(clamped(lower)),
{
}

/// Budgets follow votes: a vote never gets a smaller budget than a smaller vote, and only the
/// clamped vote matters.
pub proof fn budget_monotone(lower: int, higher: int)
    requires
        lower <= higher,
    ensures
        budget_tenths(lower) <= budget_tenths(higher),
        budget_tenths(lower) == budget_tenths(clamped(lower)),
{
}

/// Throttling never hits a vote that a smaller, unthrottled vote escapes.
pub proof fn throttle_monotone(lower: int, higher: int, threshold: Ratio)
    requires
        lower <= higher,
        budget_tenths(lower) * threshold.den >= threshold.num * 10,
    ensures
        budget_tenths(higher) * threshold.den >= threshold.num * 10,
{
    assert(budget_tenths(lower) * threshold.den <= budget_tenths(higher) * threshold.den)
        by (nonlinear_arith)
        requires
            budget_tenths(lower) <= budget_tenths(higher),
    ;
}

/// Adding a vote adds its own budget to the sum.
pub proof fn budget_sum_push(votes: Seq<i8>, vote: i8)
    ensures
        budget_sum(votes.push(vote)) == budget_sum(votes) + budget_tenths(vote as int),
{
    assert(votes.push(vote).drop_last() =~= votes);
}

/// Budget sums add up: the sum over two lists of votes put together is the sum of their sums.
pub proof fn budget_sum_of_concat(a: Seq<i8>, b: Seq<i8>)
    ensures
        budget_sum(a + b) == budget_sum(a) + budget_sum(b),
    decreases b.len(),
{
    if b.len() == 0 {
        assert(a + b =~= a);
    } else {
        assert((a + b).drop_last() =~= a + b.drop_last());
        budget_sum_of_concat(a, b.drop_last());
    }
}

/// The budget sum counts ten tenths per accepting vote, five per neutral vote and one per
/// rejecting vote.
pub proof fn budget_sum_by_class(votes: Seq<i8>)
    ensures
        budget_sum(votes) == 10 * count_class(votes, 1) + 5 * count_class(votes, 0) + count_class(
            votes,
            -1,
        ),
    decreases votes.len(),
{
    if votes.len() > 0 {
        budget_sum_by_class(votes.drop_last());
        let v = votes.last();
        assert(vote_class(v) == 1 ==> budget_tenths(v as int) == 10);
        assert(vote_class(v) == 0 ==> budget_tenths(v as int) == 5);
        assert(vote_class(v) == -1 ==> budget_tenths(v as int) == 1);
    }
}

} // verus!
