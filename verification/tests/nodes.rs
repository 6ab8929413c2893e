use a_sabr_python::error::ConstructionError;
use a_sabr_python::nodes_id_map::{make_nodes_id_map, Node, NodesIdMap};

fn node(id: u16, name: &str) -> Node {
    Node { id, name: String::from(name) }
}

#[test]
fn the_empty_map_holds_no_name() {
    let map = NodesIdMap::new();
    assert_eq!(map.get(""), None);
    assert_eq!(map.get("A"), None);
}

#[test]
fn insert_enters_and_replaces() {
    let mut map = NodesIdMap::new();
    map.insert(String::from("A"), 1);
    map.insert(String::from("B"), 2);
    assert_eq!(map.get("A"), Some(1));
    assert_eq!(map.get("B"), Some(2));
    assert_eq!(map.get("C"), None);
    map.insert(String::from("A"), 3);
    assert_eq!(map.get("A"), Some(3));
    assert_eq!(map.get("B"), Some(2));
}

#[test]
fn the_map_of_no_nodes_is_empty() {
    let map = make_nodes_id_map(&Vec::new()).unwrap();
    assert_eq!(map.get("A"), None);
}

#[test]
fn every_node_is_kept_under_its_lowercase_name() {
    let nodes = vec![node(0, "A"), node(1, "b"), node(2, "Gateway")];
    let map = make_nodes_id_map(&nodes).unwrap();
    assert_eq!(map.get("a"), Some(0));
    assert_eq!(map.get("b"), Some(1));
    assert_eq!(map.get("gateway"), Some(2));
    assert_eq!(map.get("d"), None);
    assert_eq!(map.get(""), None);
    assert_eq!(map.get("ab"), None);
}

#[test]
fn the_map_itself_matches_its_keys_exactly() {
    let nodes = vec![node(0, "A"), node(2, "Gateway")];
    let map = make_nodes_id_map(&nodes).unwrap();
    assert_eq!(map.get("A"), None);
    assert_eq!(map.get("Gateway"), None);
    assert_eq!(map.get("GATEWAY"), None);
    let mut map = NodesIdMap::new();
    map.insert(String::from("Gateway"), 2);
    assert_eq!(map.get("Gateway"), Some(2));
    assert_eq!(map.get("gateway"), None);
}

#[test]
fn lowercase_keys_are_those_of_unicode() {
    // The Kelvin sign lowers to the letter k.
    let nodes = vec![node(4, "\u{212A}1"), node(5, "\u{c9}TOILE")];
    let map = make_nodes_id_map(&nodes).unwrap();
    assert_eq!(map.get("k1"), Some(4));
    assert_eq!(map.get("\u{e9}toile"), Some(5));
    assert_eq!(map.get("etoile"), None);
}

#[test]
fn two_names_may_share_an_identifier() {
    let nodes = vec![node(5, "ground"), node(5, "station")];
    let map = make_nodes_id_map(&nodes).unwrap();
    assert_eq!(map.get("ground"), Some(5));
    assert_eq!(map.get("station"), Some(5));
}

#[test]
fn the_empty_name_is_a_name() {
    let nodes = vec![node(0, "relay"), node(2, "")];
    let map = make_nodes_id_map(&nodes).unwrap();
    assert_eq!(map.get("relay"), Some(0));
    assert_eq!(map.get(""), Some(2));
}

#[test]
fn names_that_differ_by_case_are_one_name() {
    let nodes = vec![node(0, "relay"), node(1, "Relay")];
    match make_nodes_id_map(&nodes) {
        Err(ConstructionError::DuplicateNodeName(name)) => assert_eq!(name, "Relay"),
        other => panic!("{:?}", other),
    }
    let nodes = vec![node(0, "K"), node(1, "x"), node(2, "\u{212A}")];
    match make_nodes_id_map(&nodes) {
        Err(ConstructionError::DuplicateNodeName(name)) => assert_eq!(name, "\u{212A}"),
        other => panic!("{:?}", other),
    }
}

#[test]
fn a_repeated_name_is_reported() {
    let nodes = vec![node(0, "A"), node(1, "B"), node(2, "A")];
    match make_nodes_id_map(&nodes) {
        Err(ConstructionError::DuplicateNodeName(name)) => assert_eq!(name, "A"),
        other => panic!("{:?}", other),
    }
}

#[test]
fn the_first_repeated_name_is_reported() {
    // B repeats at the fourth node, A only at the fifth.
    let nodes = vec![node(0, "A"), node(1, "B"), node(2, "C"), node(3, "b"), node(4, "A")];
    match make_nodes_id_map(&nodes) {
        Err(ConstructionError::DuplicateNodeName(name)) => assert_eq!(name, "b"),
        other => panic!("{:?}", other),
    }
    let nodes = vec![node(0, "A"), node(0, "A"), node(1, "B"), node(1, "B")];
    match make_nodes_id_map(&nodes) {
        Err(ConstructionError::DuplicateNodeName(name)) => assert_eq!(name, "A"),
        other => panic!("{:?}", other),
    }
}
