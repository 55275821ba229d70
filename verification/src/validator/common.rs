//! The compiler from schema nodes to validators.
use vstd::prelude::*;
use crate::common::{Attribute, TypeDefinition};
use crate::document::Node;
use crate::validator::array::ArrayValidator;
use crate::validator::boolean::BooleanValidator;
use crate::validator::integer::IntegerValidator;
use crate::validator::object::ObjectValidator;
use crate::validator::reference::{local_name, Context, Location, ReferenceValidator};
use crate::validator::string::StringValidator;
use crate::validator::verdict::{
    array_verdict,
    attribute_verdict,
    boolean_verdict,
    integer_verdict,
    object_verdict,
    reference_verdict,
};
use crate::validator::{UnknownValidator, Validator};

verus! {

/// A validator of document nodes: one of the closed set of kinds that a
/// schema node compiles to.
pub enum NodeValidator<'a> {
    Boolean(BooleanValidator),
    Integer(IntegerValidator),
    String(StringValidator),
    Array(ArrayValidator<'a>),
    Object(ObjectValidator<'a>),
    Reference(ReferenceValidator<'a>),
    Unknown(UnknownValidator),
}

impl<'a> NodeValidator<'a> {
    /// Whether this validator reports for every node what the schema node
    /// `attribute` reports for it.
    pub open spec fn implements(&self, attribute: Attribute, context: Context) -> bool {
        forall|node: Node| #[trigger]
            self.spec_validate(&node) == attribute_verdict(attribute, context, node)
    }
}

impl<'a> Validator<Node> for NodeValidator<'a> {
    open spec fn spec_validate(&self, node: &Node) -> Option<Seq<char>>
        decreases self, 0nat, 0nat,
    {
        match self {
            NodeValidator::Boolean(v) => v.spec_validate(node),
            NodeValidator::Integer(v) => <IntegerValidator as Validator<Node>>::spec_validate(v, node),
            NodeValidator::String(v) => <StringValidator as Validator<Node>>::spec_validate(v, node),
            NodeValidator::Array(v) => v.spec_validate(node),
            NodeValidator::Object(v) => v.spec_validate(node),
            NodeValidator::Reference(v) => v.spec_validate(node),
            NodeValidator::Unknown(v) => v.spec_validate(node),
        }
    }

    fn validate(&self, node: &Node) -> (violation: Option<String>)
        decreases node, 3nat,
    {
        match self {
            NodeValidator::Boolean(v) => v.validate(node),
            NodeValidator::Integer(v) => <IntegerValidator as Validator<Node>>::validate(v, node),
            NodeValidator::String(v) => <StringValidator as Validator<Node>>::validate(v, node),
            NodeValidator::Array(v) => v.validate(node),
            NodeValidator::Object(v) => v.validate(node),
            NodeValidator::Reference(v) => v.validate(node),
            NodeValidator::Unknown(v) => v.validate(node),
        }
    }
}

/// Compiles a schema node into its validator. A reference takes precedence
/// over a declared type and is followed only when a node is validated.
pub fn to_validator<'a>(attribute: &Attribute, context: &Context<'a>) -> (validator: NodeValidator<'a>)
    ensures
        validator.implements(*attribute, *context),
        match attribute.reference {
            Some(uri) => validator matches NodeValidator::Reference(v) && v.location.name()
                == local_name(uri@) && v.context == *context,
            None => match attribute.definition {
                Some(TypeDefinition::Boolean) => validator is Boolean,
                Some(TypeDefinition::Integer(t)) => validator matches NodeValidator::Integer(v)
                    && v == IntegerValidator::spec_from(t, context.formats.integer),
                Some(TypeDefinition::String(t)) => validator matches NodeValidator::String(v)
                    && v.is_from(t, context.formats.string),
                Some(TypeDefinition::Array { items }) => validator matches NodeValidator::Array(v)
                    && v.implements(*items, *context),
                Some(TypeDefinition::Object(t)) => validator matches NodeValidator::Object(v)
                    && v.implements(t, *context),
                _ => validator is Unknown,
            },
        },
    decreases attribute, 1nat,
{
    let validator = match &attribute.reference {
        Some(uri) => {
            let location = Location::from(uri.clone());
            NodeValidator::Reference(ReferenceValidator { location, context: *context })
        },
        None => match &attribute.definition {
            Some(TypeDefinition::Boolean) => NodeValidator::Boolean(BooleanValidator),
            Some(TypeDefinition::Integer(integer_type)) => NodeValidator::Integer(
                IntegerValidator::from((integer_type, &context.formats.integer)),
            ),
            Some(TypeDefinition::String(string_type)) => NodeValidator::String(
                StringValidator::from((string_type, &context.formats.string)),
            ),
            Some(TypeDefinition::Array { items }) => NodeValidator::Array(
                ArrayValidator::new(items, context),
            ),
            Some(TypeDefinition::Object(object_type)) => NodeValidator::Object(
                ObjectValidator::new(object_type, context),
            ),
            _ => NodeValidator::Unknown(UnknownValidator),
        },
    };
    proof {
        assert forall|node: Node| #[trigger]
            validator.spec_validate(&node) == attribute_verdict(*attribute, *context, node) by {
            match validator {
                NodeValidator::Boolean(v) => {
                    assert(v.spec_validate(&node) == boolean_verdict(node));
                },
                NodeValidator::Integer(v) => {
                    assert(<IntegerValidator as Validator<Node>>::spec_validate(&v, &node)
                        == integer_verdict(v, node));
                },
                NodeValidator::String(v) => {
                    assert(<StringValidator as Validator<Node>>::spec_validate(&v, &node) == (
                    match node {
                        Node::String(s) => v.check(s@),
                        _ => Some("field is not string"@),
                    }));
                },
                NodeValidator::Array(v) => {
                    assert(v.spec_validate(&node) == array_verdict(
                        *attribute.definition->Some_0->items,
                        *context,
                        node,
                    ));
                },
                NodeValidator::Object(v) => {
                    assert(v.spec_validate(&node) == object_verdict(
                        attribute.definition->Some_0->Object_0,
                        *context,
                        node,
                    ));
                },
                NodeValidator::Reference(v) => {
                    assert(v.spec_validate(&node) == reference_verdict(
                        attribute.reference->Some_0@,
                        *context,
                        node,
                    ));
                },
                NodeValidator::Unknown(v) => {
                    assert(v.spec_validate(&node) == Some("unknown type"@));
                },
            }
        }
    }
    validator
}


/// Two validators compiled from one schema node against one context report
/// the same for every node.
pub proof fn lemma_same_verdicts(
    first: NodeValidator,
    second: NodeValidator,
    attribute: Attribute,
    context: Context,
    node: Node,
)
    requires
        first.implements(attribute, context),
        second.implements(attribute, context),
    ensures
        first.spec_validate(&node) == second.spec_validate(&node),
{
    assert(first.spec_validate(&node) == attribute_verdict(attribute, context, node));
    assert(second.spec_validate(&node) == attribute_verdict(attribute, context, node));
}

} // verus!
