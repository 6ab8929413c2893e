//! Bundles: the unit of data that a route is asked for.

use crate::types::{NodeID, Priority};
use vstd::prelude::*;

verus! {

/// A bundle as the engine takes it.
#[derive(Clone, Debug, PartialEq)]
pub struct Bundle<V, D> {
    pub source: NodeID,
    pub destinations: Vec<NodeID>,
    pub priority: Priority,
    pub size: V,
    pub expiration: D,
}

/// What a route is asked for: where the data comes from, where it must go,
/// how urgent and how large it is, and when it expires.
#[derive(Clone, Debug, PartialEq)]
pub struct PyAsabrBundle<V, D> {
    /// The node at which the routing starts.
    pub source: NodeID,
    /// The nodes that the bundle must reach, in the caller's order.
    pub destinations: Vec<NodeID>,
    /// The priority of the bundle.
    pub priority: Priority,
    /// The volume that the bundle takes of each contact.
    pub size: V,
    /// The date after which the bundle is no longer delivered.
    pub expiration: D,
}

impl<V: Copy, D: Copy> PyAsabrBundle<V, D> {
    /// Whether the engine's bundle says what this bundle says.
    pub open spec fn is_native(self, bundle: Bundle<V, D>) -> bool {
        &&& bundle.source == self.source
        &&& bundle.destinations@ == self.destinations@
        &&& bundle.priority == self.priority
        &&& bundle.size == self.size
        &&& bundle.expiration == self.expiration
    }

    /// Makes a bundle of its five parts.
    pub fn new(
        source: NodeID,
        destinations: Vec<NodeID>,
        priority: Priority,
        size: V,
        expiration: D,
    ) -> (bundle: Self)
        ensures
            bundle.source == source,
            bundle.destinations == destinations,
            bundle.priority == priority,
            bundle.size == size,
            bundle.expiration == expiration,
    {
        PyAsabrBundle { source, destinations, priority, size, expiration }
    }

    /// The bundle for the engine: the same five parts.
    pub fn to_native_bundle(&self) -> (bundle: Bundle<V, D>)
        ensures
            self.is_native(bundle),
    {
        let destinations = self.destinations.clone();
        assert(destinations@ =~= self.destinations@);
        Bundle {
            source: self.source,
            destinations,
            priority: self.priority,
            size: self.size,
            expiration: self.expiration,
        }
    }
}

} // verus!
