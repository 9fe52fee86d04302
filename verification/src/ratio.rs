//! Exact fractions: the library states budgets, shares and sentiments as
//! ratios of integers, which callers may turn into floating-point numbers.
use vstd::prelude::*;

verus! {

/// A non-negative fraction `num / den`.
#[derive(Clone, Copy, Debug, PartialEq, Eq, Structural)]
pub struct Ratio {
    pub num: u64,
    pub den: u64,
}

/// A signed fraction `num / den`.
#[derive(Clone, Copy, Debug, PartialEq, Eq, Structural)]
pub struct SignedRatio {
    pub num: i128,
    pub den: u64,
}

impl Ratio {
    /// A ratio denotes a number only when its denominator is positive.
    pub open spec fn wf(self) -> bool {
        self.den > 0
    }
}

impl SignedRatio {
    /// A ratio denotes a number only when its denominator is positive.
    pub open spec fn wf(self) -> bool {
        self.den > 0
    }
}

} // verus!
