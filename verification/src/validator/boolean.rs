//! The validator of booleans.
use vstd::prelude::*;
use crate::document::Node;
use crate::validator::Validator;

verus! {

/// Checks that a node is a boolean.
pub struct BooleanValidator;

impl Validator<Node> for BooleanValidator {
    open spec fn spec_validate(&self, node: &Node) -> Option<Seq<char>> {
        if node is Boolean {
            None
        } else {
            Some("field is not boolean"@)
        }
    }

    fn validate(&self, node: &Node) -> (violation: Option<String>) {
        match node {
            Node::Boolean(_) => None,
            _ => Some(String::from_str("field is not boolean")),
        }
    }
}

} // verus!
