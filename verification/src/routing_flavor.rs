//! The family of routing algorithm.

use crate::text::{lowercase_of, str_equal, to_lowercase};
use vstd::prelude::*;

verus! {

/// The routing algorithm, and for contact-graph routing the rule by which
/// a route is given up.
#[derive(Clone, Copy, Debug, PartialEq, Eq, Structural)]
pub enum RoutingFlavor {
    /// Shortest path with a single successor, served from a route cache.
    SPSN,
    /// Contact-graph routing; a route is given up when the window of its
    /// first ending contact closes.
    CGRFirstEnding,
    /// Contact-graph routing; a route is given up when the volume of its
    /// first depleted contact is used up.
    CGRFirstDepleted,
}

impl RoutingFlavor {
    /// The flavor that a lowercase name stands for, if it is one.
    pub open spec fn named(name: Seq<char>) -> Option<Self> {
        if name == "spsn"@ {
            Some(RoutingFlavor::SPSN)
        } else if name == "cgr_firstending"@ {
            Some(RoutingFlavor::CGRFirstEnding)
        } else if name == "cgr_firstdepleted"@ {
            Some(RoutingFlavor::CGRFirstDepleted)
        } else {
            None
        }
    }

    /// Reads a flavor from its lowercase name, matched exactly.
    pub fn from_lowercase(name: &str) -> (flavor: Option<Self>)
        ensures
            flavor == Self::named(name@),
    {
        if str_equal(name, "spsn") {
            Some(RoutingFlavor::SPSN)
        } else if str_equal(name, "cgr_firstending") {
            Some(RoutingFlavor::CGRFirstEnding)
        } else if str_equal(name, "cgr_firstdepleted") {
            Some(RoutingFlavor::CGRFirstDepleted)
        } else {
            None
        }
    }

    /// Reads a flavor from its name, whatever the case of its letters.
    pub fn from_str(routing_flavor_name: &str) -> (flavor: Option<Self>)
        ensures
            flavor == Self::named(lowercase_of(routing_flavor_name@)),
    {
        let lowered = to_lowercase(routing_flavor_name);
        Self::from_lowercase(lowered.as_str())
    }
}

} // verus!
