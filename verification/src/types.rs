//! Plain types shared by the whole library.
//!
//! Dates and volumes are type parameters throughout: the library hands
//! them on as the search engine counts them and never computes with them.

use vstd::prelude::*;

verus! {

/// The numeric identity of a node of the contact plan.
pub type NodeID = u16;

/// The priority of a bundle.
pub type Priority = i8;

} // verus!
