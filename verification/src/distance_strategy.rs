//! How the length of a path is measured.

use crate::text::{lowercase_of, str_equal, to_lowercase};
use vstd::prelude::*;

verus! {

/// The cost model by which candidate paths are ranked.
#[derive(Clone, Copy, Debug, PartialEq, Eq, Structural)]
pub enum DistanceStrategy {
    /// Fewest contacts first; equal counts are ranked by arrival time.
    Hop,
    /// Schedule-aware: earliest arrival, given rates, volumes and waiting.
    SABR,
}

impl DistanceStrategy {
    /// The strategy that a lowercase name stands for, if it is one.
    pub open spec fn named(name: Seq<char>) -> Option<Self> {
        if name == "hop"@ {
            Some(DistanceStrategy::Hop)
        } else if name == "sabr"@ {
            Some(DistanceStrategy::SABR)
        } else {
            None
        }
    }

    /// Reads a strategy from its lowercase name, matched exactly.
    pub fn from_lowercase(name: &str) -> (strategy: Option<Self>)
        ensures
            strategy == Self::named(name@),
    {
        if str_equal(name, "hop") {
            Some(DistanceStrategy::Hop)
        } else if str_equal(name, "sabr") {
            Some(DistanceStrategy::SABR)
        } else {
            None
        }
    }

    /// Reads a strategy from its name, whatever the case of its letters.
    pub fn from_str(distance_strategy_name: &str) -> (strategy: Option<Self>)
        ensures
            strategy == Self::named(lowercase_of(distance_strategy_name@)),
    {
        let lowered = to_lowercase(distance_strategy_name);
        Self::from_lowercase(lowered.as_str())
    }
}

} // verus!
