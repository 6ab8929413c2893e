//! What can go wrong when a router is built or a node is looked up.

use crate::text::{decimal, decimal_of};
use crate::types::NodeID;
use vstd::prelude::*;
use vstd::string::StringExecFns;

verus! {

/// Why no router could be built. Each of these ends the construction.
#[derive(Clone, Debug)]
pub enum ConstructionError {
    /// The contact plan could not be read; the text is the reader's own.
    ContactPlan(String),
    /// A node of the contact plan carries this name, and an earlier node
    /// carries the same name, up to the case of its letters.
    DuplicateNodeName(String),
    /// The contact at this position, counted from zero, is sent or
    /// received by a node that the contact plan does not declare.
    UndeclaredNode { contact: usize, node: NodeID },
    /// No router of this name exists, or the feature it needs is disabled.
    InvalidRouterType(String),
}

/// Why a node could not be resolved. The caller can go on with another
/// name.
#[derive(Clone, Debug)]
pub enum LookupError {
    /// The contact plan declares no node of this name.
    NodeUnknown(String),
}

impl ConstructionError {
    /// The text that reports this error.
    pub open spec fn message_of(self) -> Seq<char> {
        match self {
            ConstructionError::ContactPlan(reason) => "[A-SABR][ContactPlan] Parse error: "@
                + reason@,
            ConstructionError::DuplicateNodeName(name) => "[A-SABR][ContactPlan] Node '"@ + name@
                + "' is declared twice"@,
            ConstructionError::UndeclaredNode { contact, node } => "[A-SABR][ContactPlan] Contact "@
                + decimal_of(contact as nat) + " refers to undeclared node "@ + decimal_of(
                node as nat,
            ),
            ConstructionError::InvalidRouterType(router_type) => "Router type \""@ + router_type@
                + "\" is invalid! (check for typo or disabled feature)"@,
        }
    }

    /// Writes the text that reports this error.
    pub fn message(&self) -> (text: String)
        ensures
            text@ == self.message_of(),
    {
        match self {
            ConstructionError::ContactPlan(reason) => {
                let mut text = String::from_str("[A-SABR][ContactPlan] Parse error: ");
                text.append(reason.as_str());
                text
            },
            ConstructionError::DuplicateNodeName(name) => {
                let mut text = String::from_str("[A-SABR][ContactPlan] Node '");
                text.append(name.as_str());
                text.append("' is declared twice");
                text
            },
            ConstructionError::UndeclaredNode { contact, node } => {
                let mut text = String::from_str("[A-SABR][ContactPlan] Contact ");
                text.append(decimal(*contact as u64).as_str());
                text.append(" refers to undeclared node ");
                text.append(decimal(*node as u64).as_str());
                text
            },
            ConstructionError::InvalidRouterType(router_type) => {
                let mut text = String::from_str("Router type \"");
                text.append(router_type.as_str());
                text.append("\" is invalid! (check for typo or disabled feature)");
                text
            },
        }
    }
}

impl LookupError {
    /// The text that reports this error.
    pub open spec fn message_of(self) -> Seq<char> {
        match self {
            LookupError::NodeUnknown(name) => "Node '"@ + name@ + "' unknown"@,
        }
    }

    /// Writes the text that reports this error.
    pub fn message(&self) -> (text: String)
        ensures
            text@ == self.message_of(),
    {
        match self {
            LookupError::NodeUnknown(name) => {
                let mut text = String::from_str("Node '");
                text.append(name.as_str());
                text.append("' unknown");
                text
            },
        }
    }
}

} // verus!
