//! Contacts, as the engine holds them and as a caller sees them.

use crate::types::NodeID;
use vstd::prelude::*;

verus! {

/// A contact as the contact plan gives it: a directed opportunity to send
/// from one node to another between two dates.
#[derive(Clone, Copy, Debug, PartialEq)]
pub struct Contact<D> {
    pub tx_node: NodeID,
    pub rx_node: NodeID,
    pub start: D,
    pub end: D,
}

/// A contact as a caller sees it: what the contact plan says of it, under
/// the identity of the one instance that the engine holds.
///
/// Two instances with the same nodes and dates are still two contacts; the
/// identity tells them apart for as long as the router lives.
#[derive(Clone, Copy, Debug, PartialEq)]
pub struct PyAsabrContact<D> {
    pub contact_id: usize,
    pub tx_node: NodeID,
    pub rx_node: NodeID,
    pub start_time: D,
    pub end_time: D,
}

impl<D> PyAsabrContact<D> {
    /// The view of the contact with this identity, nodes and dates.
    pub open spec fn of(contact_id: usize, contact: Contact<D>) -> Self {
        PyAsabrContact {
            contact_id,
            tx_node: contact.tx_node,
            rx_node: contact.rx_node,
            start_time: contact.start,
            end_time: contact.end,
        }
    }

    /// Identity is by instance: the views of two instances differ, even
    /// where the contact plan says the same of both.
    pub proof fn lemma_instances_stay_apart(
        first_id: usize,
        first: Contact<D>,
        second_id: usize,
        second: Contact<D>,
    )
        requires
            first_id != second_id,
        ensures
            Self::of(first_id, first) != Self::of(second_id, second),
    {
    }
}

impl<D: Copy> PyAsabrContact<D> {
    /// Views the engine's contact with this identity.
    pub fn from_native_contact(contact_id: usize, contact: &Contact<D>) -> (view: Self)
        ensures
            view == Self::of(contact_id, *contact),
    {
        PyAsabrContact {
            contact_id,
            tx_node: contact.tx_node,
            rx_node: contact.rx_node,
            start_time: contact.start,
            end_time: contact.end,
        }
    }
}

} // verus!
