use a_sabr_python::error::{ConstructionError, LookupError};

#[test]
fn message_of_a_contact_plan_that_could_not_be_read() {
    let error = ConstructionError::ContactPlan(String::from("unexpected end of file"));
    assert_eq!(
        error.message(),
        "[A-SABR][ContactPlan] Parse error: unexpected end of file"
    );
    let error = ConstructionError::ContactPlan(String::new());
    assert_eq!(error.message(), "[A-SABR][ContactPlan] Parse error: ");
}

#[test]
fn message_of_a_duplicate_node_name() {
    let error = ConstructionError::DuplicateNodeName(String::from("relay"));
    assert_eq!(
        error.message(),
        "[A-SABR][ContactPlan] Node 'relay' is declared twice"
    );
}

#[test]
fn message_of_an_undeclared_node() {
    let error = ConstructionError::UndeclaredNode { contact: 12, node: 7 };
    assert_eq!(
        error.message(),
        "[A-SABR][ContactPlan] Contact 12 refers to undeclared node 7"
    );
    let error = ConstructionError::UndeclaredNode { contact: 0, node: 65535 };
    assert_eq!(
        error.message(),
        "[A-SABR][ContactPlan] Contact 0 refers to undeclared node 65535"
    );
}

#[test]
fn message_of_an_invalid_router_type() {
    let error = ConstructionError::InvalidRouterType(String::from("SpsnNodeGraf"));
    assert_eq!(
        error.message(),
        "Router type \"SpsnNodeGraf\" is invalid! (check for typo or disabled feature)"
    );
}

#[test]
fn message_of_an_unknown_node() {
    let error = LookupError::NodeUnknown(String::from("moon"));
    assert_eq!(error.message(), "Node 'moon' unknown");
    let error = LookupError::NodeUnknown(String::new());
    assert_eq!(error.message(), "Node '' unknown");
}
