//! Verified front end for contact-plan routers in delay-tolerant networks.
//!
//! A router is chosen once, by name, from a closed family of routing
//! algorithms; node names are resolved to identifiers against the nodes of
//! the contact plan; and each answer of the search engine is turned into the
//! list of first hops with the destinations reachable through each of them.
//! The search itself is not part of this library.

pub mod distance_strategy;
pub mod error;
pub mod factory;
pub mod nodes_id_map;
pub mod pathfinding_strategy;
pub mod py_asabr_bundle;
pub mod py_asabr_contact;
pub mod py_asabr_router;
pub mod routing_flavor;
pub mod text;
pub mod types;
