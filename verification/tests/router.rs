use a_sabr_python::distance_strategy::DistanceStrategy;
use a_sabr_python::error::{ConstructionError, LookupError};
use a_sabr_python::factory::{Features, GenericRouter};
use a_sabr_python::nodes_id_map::Node;
use a_sabr_python::pathfinding_strategy::PathfindingStrategy;
use a_sabr_python::py_asabr_bundle::{Bundle, PyAsabrBundle};
use a_sabr_python::py_asabr_contact::{Contact, PyAsabrContact};
use a_sabr_python::py_asabr_router::{
    check_contacts, declares_node, ContactPlan, FirstHop, PyAsabrRouter, RoutingOutput,
};
use a_sabr_python::routing_flavor::RoutingFlavor;

fn no_features() -> Features {
    Features { contact_work_area: false, contact_suppression: false, first_depleted: false }
}

fn node(id: u16, name: &str) -> Node {
    Node { id, name: String::from(name) }
}

fn contact(tx_node: u16, rx_node: u16, start: f64, end: f64) -> Contact<f64> {
    Contact { tx_node, rx_node, start, end }
}

/// Nodes A, B and C; a contact from A to B over [0, 10] and one from B to C
/// over [5, 20].
fn relay_plan() -> ContactPlan<f64> {
    ContactPlan {
        nodes: vec![node(0, "A"), node(1, "B"), node(2, "C")],
        contacts: vec![contact(0, 1, 0.0, 10.0), contact(1, 2, 5.0, 20.0)],
    }
}

fn relay_router() -> PyAsabrRouter {
    PyAsabrRouter::new(Ok(relay_plan()), "SpsnNodeGraph", &no_features()).unwrap()
}

#[test]
fn declares_node_finds_identifiers() {
    let nodes = vec![node(0, "A"), node(7, "B"), node(7, "C")];
    assert!(declares_node(&nodes, 0));
    assert!(declares_node(&nodes, 7));
    assert!(!declares_node(&nodes, 1));
    assert!(!declares_node(&nodes, 65535));
    assert!(!declares_node(&Vec::new(), 0));
}

#[test]
fn contacts_between_declared_nodes_pass() {
    let plan = relay_plan();
    assert!(check_contacts(&plan.nodes, &plan.contacts).is_ok());
    assert!(check_contacts::<f64>(&plan.nodes, &Vec::new()).is_ok());
    assert!(check_contacts::<f64>(&Vec::new(), &Vec::new()).is_ok());
    // A contact from a node to itself joins declared nodes.
    assert!(check_contacts(&plan.nodes, &vec![contact(2, 2, 0.0, 1.0)]).is_ok());
}

#[test]
fn the_first_contact_with_an_undeclared_end_is_reported() {
    let nodes = vec![node(0, "A"), node(1, "B")];
    let contacts = vec![
        contact(0, 1, 0.0, 1.0),
        contact(1, 4, 0.0, 1.0),
        contact(9, 0, 0.0, 1.0),
    ];
    match check_contacts(&nodes, &contacts) {
        Err(ConstructionError::UndeclaredNode { contact, node }) => {
            assert_eq!(contact, 1);
            assert_eq!(node, 4);
        }
        other => panic!("{:?}", other),
    }
}

#[test]
fn an_undeclared_sender_is_reported_before_the_receiver() {
    let nodes = vec![node(0, "A")];
    match check_contacts(&nodes, &vec![contact(8, 9, 0.0, 1.0)]) {
        Err(ConstructionError::UndeclaredNode { contact, node }) => {
            assert_eq!(contact, 0);
            assert_eq!(node, 8);
        }
        other => panic!("{:?}", other),
    }
    match check_contacts(&nodes, &vec![contact(0, 9, 0.0, 1.0)]) {
        Err(ConstructionError::UndeclaredNode { contact, node }) => {
            assert_eq!(contact, 0);
            assert_eq!(node, 9);
        }
        other => panic!("{:?}", other),
    }
}

#[test]
fn a_router_is_built_on_a_sound_plan() {
    let router = relay_router();
    assert_eq!(
        router.router(),
        GenericRouter {
            flavor: RoutingFlavor::SPSN,
            pathfinding: PathfindingStrategy::NodeGraph,
            distance: DistanceStrategy::SABR,
        }
    );
    assert_eq!(router.router().to_router_type(), "SpsnNodeGraph");
}

#[test]
fn a_router_is_built_on_an_empty_plan() {
    let plan: ContactPlan<f64> = ContactPlan { nodes: Vec::new(), contacts: Vec::new() };
    let router = PyAsabrRouter::new(Ok(plan), "SpsnHopMpt", &no_features()).unwrap();
    assert_eq!(router.router().distance, DistanceStrategy::Hop);
    assert!(router.get_node_id("A").is_err());
}

#[test]
fn an_unreadable_plan_builds_no_router() {
    let made = PyAsabrRouter::new::<f64>(
        Err(String::from("line 3: expected a number")),
        "SpsnNodeGraph",
        &no_features(),
    );
    let error = made.unwrap_err();
    assert!(matches!(&error, ConstructionError::ContactPlan(reason) if reason == "line 3: expected a number"));
    assert_eq!(
        error.message(),
        "[A-SABR][ContactPlan] Parse error: line 3: expected a number"
    );
}

#[test]
fn an_unreadable_plan_is_reported_before_the_router_type() {
    let made = PyAsabrRouter::new::<f64>(Err(String::from("no such file")), "Nope", &no_features());
    assert!(matches!(made, Err(ConstructionError::ContactPlan(_))));
}

#[test]
fn a_duplicate_name_builds_no_router() {
    let plan = ContactPlan {
        nodes: vec![node(0, "A"), node(1, "B"), node(2, "A")],
        contacts: vec![contact(0, 1, 0.0, 10.0)],
    };
    let error = PyAsabrRouter::new(Ok(plan), "SpsnNodeGraph", &no_features()).unwrap_err();
    assert!(matches!(&error, ConstructionError::DuplicateNodeName(name) if name == "A"));
    assert_eq!(error.message(), "[A-SABR][ContactPlan] Node 'A' is declared twice");
}

#[test]
fn a_duplicate_name_is_reported_before_an_undeclared_node() {
    let plan = ContactPlan {
        nodes: vec![node(0, "A"), node(1, "A")],
        contacts: vec![contact(0, 5, 0.0, 10.0)],
    };
    let made = PyAsabrRouter::new(Ok(plan), "Nope", &no_features());
    assert!(matches!(made, Err(ConstructionError::DuplicateNodeName(_))));
}

#[test]
fn an_undeclared_node_builds_no_router() {
    let plan = ContactPlan {
        nodes: vec![node(0, "A"), node(1, "B")],
        contacts: vec![contact(0, 1, 0.0, 10.0), contact(1, 2, 5.0, 20.0)],
    };
    let error = PyAsabrRouter::new(Ok(plan), "SpsnNodeGraph", &no_features()).unwrap_err();
    assert!(matches!(
        error,
        ConstructionError::UndeclaredNode { contact: 1, node: 2 }
    ));
    assert_eq!(
        error.message(),
        "[A-SABR][ContactPlan] Contact 1 refers to undeclared node 2"
    );
}

#[test]
fn an_undeclared_node_is_reported_before_the_router_type() {
    let plan = ContactPlan { nodes: vec![node(0, "A")], contacts: vec![contact(3, 0, 0.0, 1.0)] };
    let made = PyAsabrRouter::new(Ok(plan), "Nope", &no_features());
    assert!(matches!(
        made,
        Err(ConstructionError::UndeclaredNode { contact: 0, node: 3 })
    ));
}

#[test]
fn an_invalid_router_type_builds_no_router() {
    let error = PyAsabrRouter::new(Ok(relay_plan()), "SpsnNodeGraf", &no_features()).unwrap_err();
    assert!(matches!(&error, ConstructionError::InvalidRouterType(name) if name == "SpsnNodeGraf"));
    assert_eq!(
        error.message(),
        "Router type \"SpsnNodeGraf\" is invalid! (check for typo or disabled feature)"
    );
}

#[test]
fn a_disabled_router_type_builds_no_router() {
    let made = PyAsabrRouter::new(Ok(relay_plan()), "CgrFirstEndingMpt", &no_features());
    assert!(matches!(&made, Err(ConstructionError::InvalidRouterType(name)) if name == "CgrFirstEndingMpt"));
    let features = Features { contact_suppression: true, ..no_features() };
    let router = PyAsabrRouter::new(Ok(relay_plan()), "CgrFirstEndingMpt", &features).unwrap();
    assert_eq!(router.router().flavor, RoutingFlavor::CGRFirstEnding);
    assert_eq!(router.router().pathfinding, PathfindingStrategy::MultipathTracking);
    assert_eq!(router.router().distance, DistanceStrategy::SABR);
}

#[test]
fn nodes_are_resolved_by_name() {
    let router = relay_router();
    assert_eq!(router.get_node_id("A").ok(), Some(0));
    assert_eq!(router.get_node_id("B").ok(), Some(1));
    assert_eq!(router.get_node_id("C").ok(), Some(2));
}

#[test]
fn nodes_are_resolved_whatever_the_case() {
    let router = relay_router();
    assert_eq!(router.get_node_id("a").ok(), Some(0));
    assert_eq!(router.get_node_id("b").ok(), Some(1));
    assert_eq!(router.get_node_id("c").ok(), Some(2));
    let plan: ContactPlan<f64> = ContactPlan {
        nodes: vec![node(3, "Ground-Station"), node(9, "\u{212A}uiper")],
        contacts: Vec::new(),
    };
    let router = PyAsabrRouter::new(Ok(plan), "SpsnMpt", &no_features()).unwrap();
    assert_eq!(router.get_node_id("Ground-Station").ok(), Some(3));
    assert_eq!(router.get_node_id("ground-station").ok(), Some(3));
    assert_eq!(router.get_node_id("GROUND-STATION").ok(), Some(3));
    assert_eq!(router.get_node_id("kuiper").ok(), Some(9));
    assert_eq!(router.get_node_id("KUIPER").ok(), Some(9));
    assert!(router.get_node_id("ground station").is_err());
    assert!(router.get_node_id("ground-station ").is_err());
}

#[test]
fn a_lowercase_name_is_found_as_it_is() {
    let router = relay_router();
    assert_eq!(router.find_node_id("a"), Some(0));
    assert_eq!(router.find_node_id("c"), Some(2));
    assert_eq!(router.find_node_id("A"), None);
    assert_eq!(router.find_node_id("d"), None);
    assert_eq!(router.find_node_id(""), None);
}

#[test]
fn names_that_differ_by_case_build_no_router() {
    let plan = ContactPlan {
        nodes: vec![node(0, "Relay"), node(1, "B"), node(2, "relay")],
        contacts: vec![contact(0, 1, 0.0, 10.0)],
    };
    let error = PyAsabrRouter::new(Ok(plan), "SpsnNodeGraph", &no_features()).unwrap_err();
    assert!(matches!(&error, ConstructionError::DuplicateNodeName(name) if name == "relay"));
    assert_eq!(error.message(), "[A-SABR][ContactPlan] Node 'relay' is declared twice");
}

#[test]
fn an_unknown_name_is_an_error_that_names_it() {
    let router = relay_router();
    for name in ["D", "d", "", "A ", "AB"] {
        match router.get_node_id(name) {
            Err(LookupError::NodeUnknown(reported)) => assert_eq!(reported, name),
            other => panic!("{:?}", other),
        }
    }
    assert_eq!(router.get_node_id("moon").unwrap_err().message(), "Node 'moon' unknown");
}

#[test]
fn a_lookup_that_failed_leaves_the_router_usable() {
    let router = relay_router();
    assert!(router.get_node_id("moon").is_err());
    assert_eq!(router.get_node_id("C").ok(), Some(2));
}

#[test]
fn no_route_gives_no_first_hop() {
    let router = relay_router();
    assert_eq!(router.route::<f64>(None), Vec::new());
}

#[test]
fn a_route_without_first_hops_gives_none() {
    let router = relay_router();
    let output: RoutingOutput<f64> = RoutingOutput { first_hops: Vec::new() };
    assert_eq!(router.route(Some(output)), Vec::new());
}

#[test]
fn a_first_hop_is_handed_on_with_its_destinations() {
    // Data of the relay plan from A for C leaves over the contact from A
    // to B.
    let router = relay_router();
    let plan = relay_plan();
    let output = RoutingOutput {
        first_hops: vec![FirstHop {
            contact_id: 4096,
            contact: plan.contacts[0],
            reachable_nodes: vec![2],
        }],
    };
    let first_hops = router.route(Some(output));
    assert_eq!(first_hops.len(), 1);
    let (first_hop, reachable_nodes) = &first_hops[0];
    assert_eq!(first_hop.contact_id, 4096);
    assert_eq!(first_hop.tx_node, 0);
    assert_eq!(first_hop.rx_node, 1);
    assert_eq!(first_hop.start_time, 0.0);
    assert_eq!(first_hop.end_time, 10.0);
    assert_eq!(reachable_nodes, &vec![2]);
}

#[test]
fn first_hops_keep_their_order_and_their_destinations() {
    let router = relay_router();
    let output = RoutingOutput {
        first_hops: vec![
            FirstHop {
                contact_id: 300,
                contact: contact(0, 2, 6.0, 10.0),
                reachable_nodes: vec![2, 5, 3],
            },
            FirstHop { contact_id: 100, contact: contact(0, 1, 0.0, 5.0), reachable_nodes: vec![] },
            FirstHop {
                contact_id: 200,
                contact: contact(0, 1, 0.0, 5.0),
                reachable_nodes: vec![1, 1],
            },
        ],
    };
    let expected = vec![
        (
            PyAsabrContact {
                contact_id: 300,
                tx_node: 0,
                rx_node: 2,
                start_time: 6.0,
                end_time: 10.0,
            },
            vec![2, 5, 3],
        ),
        (
            PyAsabrContact { contact_id: 100, tx_node: 0, rx_node: 1, start_time: 0.0, end_time: 5.0 },
            vec![],
        ),
        (
            PyAsabrContact { contact_id: 200, tx_node: 0, rx_node: 1, start_time: 0.0, end_time: 5.0 },
            vec![1, 1],
        ),
    ];
    assert_eq!(router.route(Some(output)), expected);
}

#[test]
fn two_contacts_with_the_same_window_stay_two_contacts() {
    let same = contact(0, 1, 0.0, 5.0);
    let first = PyAsabrContact::from_native_contact(100, &same);
    let second = PyAsabrContact::from_native_contact(200, &same);
    assert_ne!(first, second);
    assert_eq!(first, PyAsabrContact::from_native_contact(100, &same));
}

#[test]
fn a_contact_is_viewed_with_its_nodes_and_dates() {
    let view = PyAsabrContact::from_native_contact(usize::MAX, &contact(3, 65535, 6.5, 10.25));
    assert_eq!(view.contact_id, usize::MAX);
    assert_eq!(view.tx_node, 3);
    assert_eq!(view.rx_node, 65535);
    assert_eq!(view.start_time, 6.5);
    assert_eq!(view.end_time, 10.25);
}

#[test]
fn a_bundle_holds_its_five_parts() {
    let bundle = PyAsabrBundle::new(0, vec![2, 1], -3, 5.0, 30.0);
    assert_eq!(bundle.source, 0);
    assert_eq!(bundle.destinations, vec![2, 1]);
    assert_eq!(bundle.priority, -3);
    assert_eq!(bundle.size, 5.0);
    assert_eq!(bundle.expiration, 30.0);
}

#[test]
fn the_engine_gets_the_same_bundle() {
    let bundle = PyAsabrBundle::new(0, vec![2, 1, 2], 1, 5.0, 30.0);
    assert_eq!(
        bundle.to_native_bundle(),
        Bundle { source: 0, destinations: vec![2, 1, 2], priority: 1, size: 5.0, expiration: 30.0 }
    );
    // The bundle itself is left as it was.
    assert_eq!(bundle.destinations, vec![2, 1, 2]);
}

#[test]
fn a_bundle_may_have_no_destination() {
    let bundle = PyAsabrBundle::new(7, Vec::new(), 0, 0.0, 0.0);
    let native = bundle.to_native_bundle();
    assert_eq!(native.source, 7);
    assert_eq!(native.destinations, Vec::<u16>::new());
}
