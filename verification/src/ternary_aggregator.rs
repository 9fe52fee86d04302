//! Aggregate ternary votes from fleet nodes: settle on consensus.
use vstd::prelude::*;

use crate::fleet_types::{votes_of, FleetNode};
use crate::ratio::{Ratio, SignedRatio};

verus! {

/// The class of a vote: accept (+1) for any positive value, neutral (0) for zero,
/// reject (-1) for any negative value.
pub open spec fn vote_class(vote: i8) -> int {
    if vote > 0 {
        1
    } else if vote == 0 {
        0
    } else {
        -1
    }
}

/// The number of votes in `votes` that fall in `class`.
pub open spec fn count_class(votes: Seq<i8>, class: int) -> nat
    decreases votes.len(),
{
    if votes.len() == 0 {
        0
    } else {
        count_class(votes.drop_last(), class) + if vote_class(votes.last()) == class {
            1nat
        } else {
            0nat
        }
    }
}

/// The largest of three counts.
pub open spec fn max3(a: int, b: int, c: int) -> int {
    let ab = if a >= b { a } else { b };
    if ab >= c { ab } else { c }
}

/// The result of aggregating ternary votes across a fleet.
#[derive(Clone, Copy, Debug)]
pub struct AggregateResult {
    pub total: usize,
    pub accept: usize,
    pub neutral: usize,
    pub reject: usize,
    /// How decisive the vote is: the share of the largest class (0 for no votes).
    pub confidence: Ratio,
    /// Net sentiment in [-1, 1]: (accept - reject) / total (0 for no votes).
    pub net_sentiment: SignedRatio,
}

impl AggregateResult {
    /// The size of the largest of the three vote classes.
    pub open spec fn agreeing_spec(self) -> int {
        max3(self.accept as int, self.neutral as int, self.reject as int)
    }

    /// The size of the largest of the three vote classes.
    pub fn agreeing(&self) -> (agree: usize)
        ensures
            agree == self.agreeing_spec(),
    {
        let ab = if self.accept >= self.neutral {
            self.accept
        } else {
            self.neutral
        };
        if ab >= self.reject {
            ab
        } else {
            self.reject
        }
    }
}

/// What aggregating `votes` gives: the class counts, the share of the largest class
/// and the net sentiment, both 0/1 when there are no votes.
pub open spec fn aggregate_of(votes: Seq<i8>) -> AggregateResult {
    let total = votes.len();
    let accept = count_class(votes, 1);
    let neutral = count_class(votes, 0);
    let reject = count_class(votes, -1);
    let agree = max3(accept as int, neutral as int, reject as int);
    AggregateResult {
        total: total as usize,
        accept: accept as usize,
        neutral: neutral as usize,
        reject: reject as usize,
        confidence: if total > 0 {
            Ratio { num: agree as u64, den: total as u64 }
        } else {
            Ratio { num: 0, den: 1 }
        },
        net_sentiment: if total > 0 {
            SignedRatio { num: (accept - reject) as i128, den: total as u64 }
        } else {
            SignedRatio { num: 0, den: 1 }
        },
    }
}

/// Aggregate raw {-1, 0, +1} votes into a result.
pub fn aggregate_votes(votes: &[i8]) -> (result: AggregateResult)
    ensures
        result == aggregate_of(votes@),
        result.confidence.wf(),
        result.net_sentiment.wf(),
        result.total == votes@.len(),
        result.accept == count_class(votes@, 1),
        result.neutral == count_class(votes@, 0),
        result.reject == count_class(votes@, -1),
        votes@.len() > 0 ==> {
            &&& result.confidence.den == votes@.len()
            &&& result.confidence.num >= result.accept
            &&& result.confidence.num >= result.neutral
            &&& result.confidence.num >= result.reject
            &&& (result.confidence.num == result.accept || result.confidence.num == result.neutral
                || result.confidence.num == result.reject)
            &&& result.net_sentiment.num == result.accept - result.reject
            &&& result.net_sentiment.den == votes@.len()
        },
{
    let n = votes.len();
    let mut accept: usize = 0;
    let mut neutral: usize = 0;
    let mut reject: usize = 0;
    let mut i: usize = 0;
    while i < n
        invariant
            n == votes@.len(),
            i <= n,
            accept == count_class(votes@.take(i as int), 1),
            neutral == count_class(votes@.take(i as int), 0),
            reject == count_class(votes@.take(i as int), -1),
            accept + neutral + reject == i,
        decreases n - i,
    {
        assert(votes@.take(i + 1).drop_last() =~= votes@.take(i as int));
        let v = votes[i];
        if v > 0 {
            accept = accept + 1;
        } else if v == 0 {
            neutral = neutral + 1;
        } else {
            reject = reject + 1;
        }
        i = i + 1;
    }
    assert(votes@.take(n as int) =~= votes@);
    let ab = if accept >= neutral {
        accept
    } else {
        neutral
    };
    let agree = if ab >= reject {
        ab
    } else {
        reject
    };
    let confidence = if n > 0 {
        Ratio { num: agree as u64, den: n as u64 }
    } else {
        Ratio { num: 0, den: 1 }
    };
    let net_sentiment = if n > 0 {
        SignedRatio { num: accept as i128 - reject as i128, den: n as u64 }
    } else {
        SignedRatio { num: 0, den: 1 }
    };
    proof {
        tally_partitions(votes@);
        if n > 0 {
            confidence_is_largest_class(votes@);
            net_sentiment_counts(votes@);
        }
    }
    AggregateResult { total: n, accept, neutral, reject, confidence, net_sentiment }
}

} // verus!

verus! {

/// Extract the votes of a slice of nodes, in node order (each node weighs the same).
pub fn node_votes(nodes: &[FleetNode]) -> (votes: Vec<i8>)
    ensures
        votes@ == votes_of(nodes@),
{
    let mut votes: Vec<i8> = Vec::new();
    let mut i: usize = 0;
    while i < nodes.len()
        invariant
            i <= nodes@.len(),
            votes@ == votes_of(nodes@.take(i as int)),
        decreases nodes@.len() - i,
    {
        votes.push(nodes[i].ternary_vote);
        i = i + 1;
        assert(votes@ =~= votes_of(nodes@.take(i as int)));
    }
    assert(nodes@.take(i as int) =~= nodes@);
    votes
}

/// Determine if a proposal reached consensus: there is at least one vote, and the largest
/// class holds at least the fraction `threshold` of the votes (a half by custom).
pub fn has_consensus(result: &AggregateResult, threshold: Ratio) -> (reached: bool)
    ensures
        reached == (result.total > 0 && result.agreeing_spec() * threshold.den >= threshold.num
            * result.total),
        reached == (result.total > 0 && (result.accept * threshold.den >= threshold.num
            * result.total || result.neutral * threshold.den >= threshold.num * result.total
            || result.reject * threshold.den >= threshold.num * result.total)),
{
    proof {
        consensus_iff_some_class_reaches(*result, threshold);
    }
    let agree = result.agreeing();
    let a = agree as u128;
    let d = threshold.den as u128;
    let n = threshold.num as u128;
    let t = result.total as u128;
    proof {
        assert(a * d <= u64::MAX * u64::MAX) by (nonlinear_arith)
            requires
                a <= u64::MAX,
                d <= u64::MAX,
        ;
        assert(n * t <= u64::MAX * u64::MAX) by (nonlinear_arith)
            requires
                n <= u64::MAX,
                t <= u64::MAX,
        ;
    }
    result.total > 0 && a * d >= n * t
}

/// Every vote falls in exactly one class: the three class counts add up to the number of votes.
pub proof fn tally_partitions(votes: Seq<i8>)
    ensures
        count_class(votes, 1) + count_class(votes, 0) + count_class(votes, -1) == votes.len(),
    decreases votes.len(),
{
    if votes.len() > 0 {
        tally_partitions(votes.drop_last());
    }
}

/// No class holds more votes than there are.
pub proof fn count_at_most_total(votes: Seq<i8>, class: int)
    ensures
        count_class(votes, class) <= votes.len(),
    decreases votes.len(),
{
    if votes.len() > 0 {
        count_at_most_total(votes.drop_last(), class);
    }
}

/// Tallies add up: counting a class over two lists of votes put together gives the sum
/// of the two counts, so fleets can be tallied piecewise and in any grouping.
pub proof fn tally_of_concat(a: Seq<i8>, b: Seq<i8>, class: int)
    ensures
        count_class(a + b, class) == count_class(a, class) + count_class(b, class),
    decreases b.len(),
{
    if b.len() == 0 {
        assert(a + b =~= a);
    } else {
        assert((a + b).drop_last() =~= a + b.drop_last());
        tally_of_concat(a, b.drop_last(), class);
    }
}

/// A class holds every vote exactly when each vote falls in that class.
pub proof fn count_is_total_iff_all_in_class(votes: Seq<i8>, class: int)
    ensures
        count_class(votes, class) == votes.len() <==> forall|i: int|
            0 <= i < votes.len() ==> vote_class(#[trigger] votes[i]) == class,
    decreases votes.len(),
{
    if votes.len() > 0 {
        let init = votes.drop_last();
        count_is_total_iff_all_in_class(init, class);
        count_at_most_total(init, class);
        if count_class(votes, class) == votes.len() {
            assert forall|i: int| 0 <= i < votes.len() implies vote_class(#[trigger] votes[i])
                == class by {
                if i < votes.len() - 1 {
                    assert(votes[i] == init[i]);
                }
            }
        }
        if forall|i: int| 0 <= i < votes.len() ==> vote_class(#[trigger] votes[i]) == class {
            assert forall|i: int| 0 <= i < init.len() implies vote_class(#[trigger] init[i])
                == class by {
                assert(init[i] == votes[i]);
            }
            assert(vote_class(votes[votes.len() - 1]) == class);
        }
    }
}

/// All votes fall in one class.
pub open spec fn unanimous(votes: Seq<i8>) -> bool {
    forall|i: int, j: int|
        0 <= i < votes.len() && 0 <= j < votes.len() ==> vote_class(#[trigger] votes[i])
            == vote_class(#[trigger] votes[j])
}

/// For any non-empty vote, confidence is a share between a third and one, and it is one
/// exactly when the vote is unanimous.
pub proof fn confidence_bounds(votes: Seq<i8>)
    requires
        0 < votes.len() <= usize::MAX,
    ensures
        aggregate_of(votes).confidence.den == votes.len(),
        aggregate_of(votes).confidence.num <= aggregate_of(votes).confidence.den,
        aggregate_of(votes).confidence.den <= 3 * aggregate_of(votes).confidence.num,
        (aggregate_of(votes).confidence.num == aggregate_of(votes).confidence.den) <==> unanimous(
            votes,
        ),
{
    let a = count_class(votes, 1);
    let n = count_class(votes, 0);
    let r = count_class(votes, -1);
    tally_partitions(votes);
    count_is_total_iff_all_in_class(votes, 1);
    count_is_total_iff_all_in_class(votes, 0);
    count_is_total_iff_all_in_class(votes, -1);
    let agree = max3(a as int, n as int, r as int);
    if unanimous(votes) {
        let c = vote_class(votes[0]);
        assert forall|i: int| 0 <= i < votes.len() implies vote_class(#[trigger] votes[i]) == c by {
            assert(vote_class(votes[i]) == vote_class(votes[0]));
        }
        count_is_total_iff_all_in_class(votes, c);
    }
    if agree == votes.len() {
        let c = if a as int == agree {
            1int
        } else if n as int == agree {
            0int
        } else {
            -1int
        };
        count_is_total_iff_all_in_class(votes, c);
        assert forall|i: int, j: int|
            0 <= i < votes.len() && 0 <= j < votes.len() implies vote_class(#[trigger] votes[i])
            == vote_class(#[trigger] votes[j]) by {}
    }
}

/// For any non-empty vote, the net sentiment lies in [-1, 1].
pub proof fn net_sentiment_bounds(votes: Seq<i8>)
    requires
        0 < votes.len() <= usize::MAX,
    ensures
        aggregate_of(votes).net_sentiment.den == votes.len(),
        -(aggregate_of(votes).net_sentiment.den as int) <= aggregate_of(votes).net_sentiment.num
            <= aggregate_of(votes).net_sentiment.den,
{
    tally_partitions(votes);
}

/// A class holds no vote exactly when no vote falls in it.
pub proof fn count_is_zero_iff_none_in_class(votes: Seq<i8>, class: int)
    ensures
        count_class(votes, class) == 0 <==> forall|i: int|
            0 <= i < votes.len() ==> vote_class(#[trigger] votes[i]) != class,
    decreases votes.len(),
{
    if votes.len() > 0 {
        let init = votes.drop_last();
        count_is_zero_iff_none_in_class(init, class);
        if count_class(votes, class) == 0 {
            assert forall|i: int| 0 <= i < votes.len() implies vote_class(#[trigger] votes[i])
                != class by {
                if i < votes.len() - 1 {
                    assert(votes[i] == init[i]);
                }
            }
        }
        if forall|i: int| 0 <= i < votes.len() ==> vote_class(#[trigger] votes[i]) != class {
            assert forall|i: int| 0 <= i < init.len() implies vote_class(#[trigger] init[i])
                != class by {
                assert(init[i] == votes[i]);
            }
            assert(vote_class(votes[votes.len() - 1]) != class);
        }
    }
}

/// The agreeing count is the size of the largest class: it is at least each of the three
/// class counts, and equal to one of them.
pub proof fn agreeing_is_largest_class(r: AggregateResult)
    ensures
        r.agreeing_spec() >= r.accept,
        r.agreeing_spec() >= r.neutral,
        r.agreeing_spec() >= r.reject,
        r.agreeing_spec() == r.accept || r.agreeing_spec() == r.neutral || r.agreeing_spec()
            == r.reject,
{
}

/// Consensus is reached exactly when there is a vote and some class on its own holds at
/// least the fraction `threshold` of the votes.
pub proof fn consensus_iff_some_class_reaches(r: AggregateResult, threshold: Ratio)
    ensures
        (r.total > 0 && r.agreeing_spec() * threshold.den >= threshold.num * r.total) == (r.total
            > 0 && (r.accept * threshold.den >= threshold.num * r.total || r.neutral * threshold.den
            >= threshold.num * r.total || r.reject * threshold.den >= threshold.num * r.total)),
{
    agreeing_is_largest_class(r);
    let g = r.agreeing_spec();
    let d = threshold.den as int;
    assert(r.accept * d <= g * d) by (nonlinear_arith)
        requires
            r.accept <= g,
            0 <= d,
    ;
    assert(r.neutral * d <= g * d) by (nonlinear_arith)
        requires
            r.neutral <= g,
            0 <= d,
    ;
    assert(r.reject * d <= g * d) by (nonlinear_arith)
        requires
            r.reject <= g,
            0 <= d,
    ;
}

/// For a non-empty vote, the confidence numerator is the size of the largest class: at least
/// the count of each class, and equal to one of them; the denominator is the number of votes.
pub proof fn confidence_is_largest_class(votes: Seq<i8>)
    requires
        0 < votes.len() <= usize::MAX,
    ensures
        aggregate_of(votes).confidence.den == votes.len(),
        aggregate_of(votes).confidence.num >= count_class(votes, 1),
        aggregate_of(votes).confidence.num >= count_class(votes, 0),
        aggregate_of(votes).confidence.num >= count_class(votes, -1),
        aggregate_of(votes).confidence.num == count_class(votes, 1) || aggregate_of(
            votes,
        ).confidence.num == count_class(votes, 0) || aggregate_of(votes).confidence.num
            == count_class(votes, -1),
{
    tally_partitions(votes);
}

/// For a non-empty vote, the net sentiment is the number of accepting votes minus the number
/// of rejecting votes, over the number of votes.
pub proof fn net_sentiment_counts(votes: Seq<i8>)
    requires
        0 < votes.len() <= usize::MAX,
    ensures
        aggregate_of(votes).net_sentiment.num == count_class(votes, 1) - count_class(votes, -1),
        aggregate_of(votes).net_sentiment.den == votes.len(),
{
    tally_partitions(votes);
}

/// Net sentiments add up: the net of two non-empty votes put together is the sum of their nets.
pub proof fn net_sentiment_of_concat(a: Seq<i8>, b: Seq<i8>)
    requires
        0 < a.len(),
        0 < b.len(),
        a.len() + b.len() <= usize::MAX,
    ensures
        aggregate_of(a + b).net_sentiment.num == aggregate_of(a).net_sentiment.num + aggregate_of(
            b,
        ).net_sentiment.num,
{
    net_sentiment_counts(a);
    net_sentiment_counts(b);
    net_sentiment_counts(a + b);
    tally_of_concat(a, b, 1);
    tally_of_concat(a, b, -1);
}

} // verus!
