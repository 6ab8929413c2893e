//! The router: built once from a contact plan and the name of a routing
//! algorithm, then asked for node identifiers and for routes.

use crate::error::{ConstructionError, LookupError};
use crate::factory::{is_router_type, make_generic_router, Features, GenericRouter};
use crate::nodes_id_map::{
    declares, is_first_repeat, make_nodes_id_map, names_are_distinct, nodes_id_map_of, Node,
    NodesIdMap,
};
use crate::py_asabr_contact::{Contact, PyAsabrContact};
use crate::text::{lowercase_of, to_lowercase};
use crate::types::NodeID;
use vstd::prelude::*;
use vstd::string::StringExecFns;

verus! {

/// What a contact plan holds: the nodes and the contacts between them.
#[derive(Clone, Debug)]
pub struct ContactPlan<D> {
    pub nodes: Vec<Node>,
    pub contacts: Vec<Contact<D>>,
}

/// One way out of the node that asks for a route: the contact to send on,
/// under the identity of its instance, and the destinations that are
/// reached through it.
#[derive(Clone, Debug)]
pub struct FirstHop<D> {
    pub contact_id: usize,
    pub contact: Contact<D>,
    pub reachable_nodes: Vec<NodeID>,
}

/// What the engine answers where it finds a route: the first hops, in no
/// order that anything rests on.
#[derive(Clone, Debug)]
pub struct RoutingOutput<D> {
    pub first_hops: Vec<FirstHop<D>>,
}

impl<D> FirstHop<D> {
    /// The first hop as it is listed for a caller: the view of the contact,
    /// and the destinations reached through it.
    pub open spec fn listed(self) -> (PyAsabrContact<D>, Seq<NodeID>) {
        (PyAsabrContact::of(self.contact_id, self.contact), self.reachable_nodes@)
    }
}

/// The list of first hops that answers a query: empty where the engine
/// found no route, else the engine's first hops, each as it is listed and
/// in the engine's order.
pub open spec fn first_hops_of<D>(routing_output: Option<RoutingOutput<D>>) -> Seq<
    (PyAsabrContact<D>, Seq<NodeID>),
> {
    match routing_output {
        None => Seq::empty(),
        Some(output) => output.first_hops@.map_values(|first_hop: FirstHop<D>| first_hop.listed()),
    }
}

/// What a list of first hops holds: each contact with the sequence of the
/// destinations beside it.
pub open spec fn listed<D>(first_hops: Seq<(PyAsabrContact<D>, Vec<NodeID>)>) -> Seq<
    (PyAsabrContact<D>, Seq<NodeID>),
> {
    first_hops.map_values(|first_hop: (PyAsabrContact<D>, Vec<NodeID>)| (first_hop.0, first_hop.1@))
}

/// The list of first hops is fixed by the engine's answer: two lists made
/// of one answer hold the same contacts, each with the same destinations.
/// Whether the engine answers one query alike twice is not said here.
pub proof fn lemma_one_answer_one_list<D>(
    routing_output: Option<RoutingOutput<D>>,
    first: Seq<(PyAsabrContact<D>, Vec<NodeID>)>,
    second: Seq<(PyAsabrContact<D>, Vec<NodeID>)>,
)
    requires
        listed(first) == first_hops_of(routing_output),
        listed(second) == first_hops_of(routing_output),
    ensures
        first.len() == second.len(),
        forall|i: int|
            0 <= i < first.len() ==> (#[trigger] first[i]).0 == second[i].0 && first[i].1@
                == second[i].1@,
{
    assert(listed(first).len() == first.len());
    assert(listed(second).len() == second.len());
    assert forall|i: int| 0 <= i < first.len() implies (#[trigger] first[i]).0 == second[i].0
        && first[i].1@ == second[i].1@ by {
        assert(listed(first)[i] == (first[i].0, first[i].1@));
        assert(listed(second)[i] == (second[i].0, second[i].1@));
    }
}

/// Whether both ends of a contact are nodes of the list.
pub open spec fn joins_declared_nodes<D>(nodes: Seq<Node>, contact: Contact<D>) -> bool {
    declares(nodes, contact.tx_node) && declares(nodes, contact.rx_node)
}

/// The end of a contact that is reported where not both are declared: the
/// sender if it is undeclared, else the receiver.
pub open spec fn undeclared_end<D>(nodes: Seq<Node>, contact: Contact<D>) -> NodeID {
    if !declares(nodes, contact.tx_node) {
        contact.tx_node
    } else {
        contact.rx_node
    }
}

/// Whether every contact of the list joins declared nodes.
pub open spec fn contacts_join_declared_nodes<D>(
    nodes: Seq<Node>,
    contacts: Seq<Contact<D>>,
) -> bool {
    forall|k: int| 0 <= k < contacts.len() ==> joins_declared_nodes(nodes, #[trigger] contacts[k])
}

/// Whether the contact at this position is the first of the list with an
/// undeclared end.
pub open spec fn is_first_stray<D>(
    nodes: Seq<Node>,
    contacts: Seq<Contact<D>>,
    position: int,
) -> bool {
    &&& 0 <= position < contacts.len()
    &&& contacts_join_declared_nodes(nodes, contacts.take(position))
    &&& !joins_declared_nodes(nodes, contacts[position])
}

/// Whether a node of the list has this identifier.
pub fn declares_node(nodes: &Vec<Node>, id: NodeID) -> (found: bool)
    ensures
        found == declares(nodes@, id),
{
    let mut i: usize = 0;
    while i < nodes.len()
        invariant
            i <= nodes@.len(),
            forall|k: int| 0 <= k < i ==> nodes@[k].id != id,
        decreases nodes@.len() - i,
    {
        if nodes[i].id == id {
            return true;
        }
        i += 1;
    }
    false
}

/// Looks for a contact with an undeclared end, and reports the first one.
pub fn check_contacts<D>(nodes: &Vec<Node>, contacts: &Vec<Contact<D>>) -> (checked: Result<
    (),
    ConstructionError,
>)
    ensures
        checked is Ok <==> contacts_join_declared_nodes(nodes@, contacts@),
        checked matches Err(error) ==> error matches ConstructionError::UndeclaredNode {
            contact,
            node,
        } && is_first_stray(nodes@, contacts@, contact as int) && node == undeclared_end(
            nodes@,
            contacts@[contact as int],
        ),
{
    let mut k: usize = 0;
    while k < contacts.len()
        invariant
            k <= contacts@.len(),
            contacts_join_declared_nodes(nodes@, contacts@.take(k as int)),
        decreases contacts@.len() - k,
    {
        let contact = &contacts[k];
        if !declares_node(nodes, contact.tx_node) {
            return Err(ConstructionError::UndeclaredNode { contact: k, node: contact.tx_node });
        }
        if !declares_node(nodes, contact.rx_node) {
            return Err(ConstructionError::UndeclaredNode { contact: k, node: contact.rx_node });
        }
        proof {
            let next = contacts@.take(k + 1);
            assert forall|i: int| 0 <= i < next.len() implies joins_declared_nodes(
                nodes@,
                #[trigger] next[i],
            ) by {
                if i < k {
                    assert(next[i] == contacts@.take(k as int)[i]);
                }
            }
        }
        k += 1;
    }
    assert(contacts@.take(k as int) =~= contacts@);
    Ok(())
}

/// A router over one contact plan.
///
/// It knows the nodes by name and which routing algorithm serves it. Both
/// are fixed when it is built.
#[derive(Clone, Debug)]
pub struct PyAsabrRouter {
    nodes_id_map: NodesIdMap,
    router: GenericRouter,
}

impl PyAsabrRouter {
    /// The identifiers of the nodes, by the lowercase of their names.
    pub closed spec fn nodes_id_map(&self) -> Map<Seq<char>, NodeID> {
        self.nodes_id_map@
    }

    /// The routing algorithm.
    pub closed spec fn spec_router(&self) -> GenericRouter {
        self.router
    }

    /// Whether a contact plan is one that a router can be built on: no two
    /// nodes share a name, whatever the case of its letters, and every
    /// contact joins declared nodes.
    pub open spec fn accepts<D>(contact_plan: ContactPlan<D>) -> bool {
        &&& names_are_distinct(contact_plan.nodes@)
        &&& contacts_join_declared_nodes(contact_plan.nodes@, contact_plan.contacts@)
    }

    /// Builds a router on what the reader of the contact plan gave, for the
    /// routing algorithm of this name.
    ///
    /// The first of these that holds decides. The contact plan could not
    /// be read: the reader's words are handed on. Two nodes share a name,
    /// whatever the case of its letters: the first node that repeats one
    /// is reported. A contact has an
    /// undeclared end: the first such contact is reported, with that end.
    /// The name is that of no router that the engine offers with these
    /// features: the name is reported. Else the router is built.
    pub fn new<D>(
        contact_plan: Result<ContactPlan<D>, String>,
        router_type: &str,
        features: &Features,
    ) -> (made: Result<Self, ConstructionError>)
        ensures
            made is Ok <==> (contact_plan matches Ok(plan) && Self::accepts(plan) && is_router_type(
                router_type@,
                *features,
            )),
            made matches Ok(router) ==> contact_plan matches Ok(plan) && router.nodes_id_map()
                == nodes_id_map_of(plan.nodes@) && router.spec_router().router_type()
                == router_type@ && router.spec_router().is_offered(*features),
            made matches Err(error) ==> match contact_plan {
                Err(reason) => error matches ConstructionError::ContactPlan(text) && text@
                    == reason@,
                Ok(plan) => if !names_are_distinct(plan.nodes@) {
                    error matches ConstructionError::DuplicateNodeName(name) && exists|
                        position: int,
                    |
                        is_first_repeat(plan.nodes@, position) && name@
                            == plan.nodes@[position].name@
                } else if !contacts_join_declared_nodes(plan.nodes@, plan.contacts@) {
                    error matches ConstructionError::UndeclaredNode { contact, node }
                        && is_first_stray(plan.nodes@, plan.contacts@, contact as int) && node
                        == undeclared_end(plan.nodes@, plan.contacts@[contact as int])
                } else {
                    error matches ConstructionError::InvalidRouterType(name) && name@
                        == router_type@
                },
            },
    {
        match contact_plan {
            Ok(plan) => {
                let nodes_id_map = match make_nodes_id_map(&plan.nodes) {
                    Ok(nodes_id_map) => nodes_id_map,
                    Err(error) => {
                        return Err(error);
                    },
                };
                match check_contacts(&plan.nodes, &plan.contacts) {
                    Ok(()) => {},
                    Err(error) => {
                        return Err(error);
                    },
                }
                match make_generic_router(router_type, features) {
                    Ok(router) => Ok(PyAsabrRouter { nodes_id_map, router }),
                    Err(error) => Err(error),
                }
            },
            Err(reason) => Err(ConstructionError::ContactPlan(reason)),
        }
    }

    /// The routing algorithm that serves this router.
    pub fn router(&self) -> (router: GenericRouter)
        ensures
            router == self.spec_router(),
    {
        self.router
    }

    /// The identifier kept under a lowercase name, matched exactly, if
    /// there is one.
    pub fn find_node_id(&self, lowercase_name: &str) -> (found: Option<NodeID>)
        ensures
            found == if self.nodes_id_map().contains_key(lowercase_name@) {
                Some(self.nodes_id_map()[lowercase_name@])
            } else {
                None
            },
    {
        self.nodes_id_map.get(lowercase_name)
    }

    /// The identifier of the node of this name, whatever the case of its
    /// letters: that of the node which the contact plan declares under a
    /// name with the same lowercase, or the error that the name is
    /// unknown, with the name as it was given.
    pub fn get_node_id(&self, node_name: &str) -> (found: Result<NodeID, LookupError>)
        ensures
            match found {
                Ok(node_id) => {
                    &&& self.nodes_id_map().contains_key(lowercase_of(node_name@))
                    &&& self.nodes_id_map()[lowercase_of(node_name@)] == node_id
                },
                Err(error) => {
                    &&& !self.nodes_id_map().contains_key(lowercase_of(node_name@))
                    &&& error matches LookupError::NodeUnknown(name) && name@ == node_name@
                },
            },
    {
        let lowercase_name = to_lowercase(node_name);
        match self.find_node_id(lowercase_name.as_str()) {
            Some(node_id) => Ok(node_id),
            None => Err(LookupError::NodeUnknown(String::from_str(node_name))),
        }
    }

    /// Turns the engine's answer to a query into the list of first hops.
    ///
    /// Where the engine found no route the list is empty. Else it holds,
    /// for each first hop and in the engine's order, the view of the
    /// contact and the destinations reached through it.
    pub fn route<D: Copy>(&self, routing_output: Option<RoutingOutput<D>>) -> (first_hops: Vec<
        (PyAsabrContact<D>, Vec<NodeID>),
    >)
        ensures
            listed(first_hops@) == first_hops_of(routing_output),
    {
        let mut py_routing_output: Vec<(PyAsabrContact<D>, Vec<NodeID>)> = Vec::new();
        if let Some(output) = routing_output {
            let mut i: usize = 0;
            while i < output.first_hops.len()
                invariant
                    i <= output.first_hops@.len(),
                    listed(py_routing_output@) == first_hops_of(Some(output)).take(i as int),
                decreases output.first_hops@.len() - i,
            {
                let first_hop = &output.first_hops[i];
                let reachable_nodes = first_hop.reachable_nodes.clone();
                let ghost before = py_routing_output@;
                py_routing_output.push(
                    (
                        PyAsabrContact::from_native_contact(
                            first_hop.contact_id,
                            &first_hop.contact,
                        ),
                        reachable_nodes,
                    ),
                );
                proof {
                    assert(reachable_nodes@ =~= first_hop.reachable_nodes@);
                    assert(listed(py_routing_output@) =~= listed(before).push(
                        first_hop.listed(),
                    ));
                    assert(first_hops_of(Some(output)).take(i + 1) =~= first_hops_of(
                        Some(output),
                    ).take(i as int).push(first_hop.listed()));
                }
                i += 1;
            }
            assert(first_hops_of(Some(output)).take(i as int) =~= first_hops_of(Some(output)));
        } else {
            assert(listed(py_routing_output@) =~= first_hops_of(routing_output));
        }
        py_routing_output
    }
}

} // verus!
