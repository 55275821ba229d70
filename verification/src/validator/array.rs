//! The validator of sequences.
use vstd::prelude::*;
use crate::common::Attribute;
use crate::document::Node;
use crate::validator::common::{to_validator, NodeValidator};
use crate::validator::reference::Context;
use crate::validator::verdict::{array_verdict, attribute_verdict, elements_verdict};
use crate::validator::Validator;

verus! {

/// Checks that a node is a sequence and that each of its elements passes one
/// shared validator.
pub struct ArrayValidator<'a> {
    pub validator: Box<NodeValidator<'a>>,
}

/// The first violation that `validator` finds among `elements`, from
/// position `from` on.
pub open spec fn elements_failure(validator: NodeValidator, elements: Seq<Node>, from: int) -> Option<
    Seq<char>,
>
    decreases validator, 1nat, elements.len() - from,
{
    if from < 0 || from >= elements.len() {
        None
    } else {
        match validator.spec_validate(&elements[from]) {
            Some(violation) => Some(violation),
            None => elements_failure(validator, elements, from + 1),
        }
    }
}

/// A validator that reports for each node what the schema node `items`
/// reports finds among elements what `items` finds among them.
pub proof fn lemma_elements(
    validator: NodeValidator,
    items: Attribute,
    context: Context,
    elements: Seq<Node>,
    from: int,
)
    requires
        validator.implements(items, context),
    ensures
        elements_failure(validator, elements, from) == elements_verdict(
            items,
            context,
            elements,
            from,
        ),
    decreases elements.len() - from,
{
    if 0 <= from < elements.len() {
        assert(validator.spec_validate(&elements[from]) == attribute_verdict(
            items,
            context,
            elements[from],
        ));
        lemma_elements(validator, items, context, elements, from + 1);
    }
}

impl<'a> ArrayValidator<'a> {
    /// Whether this validator reports for every node what an array of
    /// `items` reports for it.
    pub open spec fn implements(&self, items: Attribute, context: Context) -> bool {
        forall|node: Node| #[trigger] self.spec_validate(&node) == array_verdict(items, context, node)
    }

    /// Compiles the validator of the elements once, for the whole array.
    pub fn new(attr: &Attribute, context: &Context<'a>) -> (validator: Self)
        ensures
            validator.implements(*attr, *context),
        decreases attr, 2nat,
    {
        let inner = to_validator(attr, context);
        let validator = ArrayValidator { validator: Box::new(inner) };
        proof {
            assert forall|node: Node| #[trigger]
                validator.spec_validate(&node) == array_verdict(*attr, *context, node) by {
                if let Node::Array(elements) = node {
                    lemma_elements(inner, *attr, *context, elements@, 0);
                }
            }
        }
        validator
    }
}

impl<'a> Validator<Node> for ArrayValidator<'a> {
    open spec fn spec_validate(&self, node: &Node) -> Option<Seq<char>>
        decreases self, 0nat, 0nat,
    {
        match *node {
            Node::Array(elements) => elements_failure(*self.validator, elements@, 0),
            _ => Some("field is not array"@),
        }
    }

    fn validate(&self, node: &Node) -> (violation: Option<String>)
        decreases node, 2nat,
    {
        match node {
            Node::Array(elements) => {
                let mut i: usize = 0;
                while i < elements.len()
                    invariant
                        i <= elements.len(),
                        *node == Node::Array(*elements),
                        elements_failure(*self.validator, elements@, 0) == elements_failure(
                            *self.validator,
                            elements@,
                            i as int,
                        ),
                    decreases elements.len() - i,
                {
                    proof {
                        assert(node->Array_0 == *elements);
                        assert(decreases_to!(node => node->Array_0));
                        assert(decreases_to!(elements => elements[i as int]));
                    }
                    let found = self.validator.validate(&elements[i]);
                    if found.is_some() {
                        return found;
                    }
                    i += 1;
                }
                None
            },
            _ => Some(String::from_str("field is not array")),
        }
    }
}


/// An empty sequence passes whatever the validator of the elements is, and
/// what is no sequence is told so.
pub proof fn lemma_array_edges(validator: ArrayValidator, node: Node)
    ensures
        node matches Node::Array(elements) && elements@.len() == 0 ==> validator.spec_validate(
            &node,
        ) is None,
        !(node is Array) ==> validator.spec_validate(&node) == Some("field is not array"@),
{
}

/// The same of the schema: an array accepts the empty sequence whatever
/// its items are declared to be.
pub proof fn lemma_array_schema_edges(items: Attribute, context: Context, node: Node)
    ensures
        node matches Node::Array(elements) && elements@.len() == 0 ==> array_verdict(
            items,
            context,
            node,
        ) is None,
        !(node is Array) ==> array_verdict(items, context, node) == Some("field is not array"@),
{
}

/// What an array reports is what its first failing element reports.
pub proof fn lemma_first_failing_element(
    validator: NodeValidator,
    elements: Seq<Node>,
    from: int,
    at: int,
)
    requires
        0 <= from <= at < elements.len(),
        forall|j: int| from <= j < at ==> validator.spec_validate(&#[trigger] elements[j]) is None,
        validator.spec_validate(&elements[at]) is Some,
    ensures
        elements_failure(validator, elements, from) == validator.spec_validate(&elements[at]),
    decreases at - from,
{
    if from < at {
        lemma_first_failing_element(validator, elements, from + 1, at);
    }
}

} // verus!
