//! What the search takes as the vertices of its graph.

use crate::text::{lowercase_of, str_equal, to_lowercase};
use vstd::prelude::*;

verus! {

/// The shape of the search over the contact plan.
#[derive(Clone, Copy, Debug, PartialEq, Eq, Structural)]
pub enum PathfindingStrategy {
    /// Nodes are the vertices: one best path for each destination.
    NodeGraph,
    /// Contacts are the vertices, so that two contacts between the same
    /// pair of nodes are told apart.
    ContactGraph,
    /// One pass for all destinations, which share the common part of
    /// their routes.
    MultipathTracking,
}

impl PathfindingStrategy {
    /// The strategy that a lowercase name stands for, if it is one.
    pub open spec fn named(name: Seq<char>) -> Option<Self> {
        if name == "node_graph"@ {
            Some(PathfindingStrategy::NodeGraph)
        } else if name == "contact_graph"@ {
            Some(PathfindingStrategy::ContactGraph)
        } else if name == "multipath_tracking"@ {
            Some(PathfindingStrategy::MultipathTracking)
        } else {
            None
        }
    }

    /// Reads a strategy from its lowercase name, matched exactly.
    pub fn from_lowercase(name: &str) -> (strategy: Option<Self>)
        ensures
            strategy == Self::named(name@),
    {
        if str_equal(name, "node_graph") {
            Some(PathfindingStrategy::NodeGraph)
        } else if str_equal(name, "contact_graph") {
            Some(PathfindingStrategy::ContactGraph)
        } else if str_equal(name, "multipath_tracking") {
            Some(PathfindingStrategy::MultipathTracking)
        } else {
            None
        }
    }

    /// Reads a strategy from its name, whatever the case of its letters.
    pub fn from_str(pathfinding_strategy_name: &str) -> (strategy: Option<Self>)
        ensures
            strategy == Self::named(lowercase_of(pathfinding_strategy_name@)),
    {
        let lowered = to_lowercase(pathfinding_strategy_name);
        Self::from_lowercase(lowered.as_str())
    }
}

} // verus!
