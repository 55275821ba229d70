//! What a schema node means: the violation that it finds in a document
//! node, stated over the schema itself. The validators are proved to report
//! exactly this.
use vstd::prelude::*;
use crate::common::{Attribute, ObjectType, StringType, TypeDefinition};
use crate::document::{has_key, Node};
use crate::table::position;
use crate::validator::format::Formats;
use crate::validator::integer::IntegerValidator;
use crate::validator::reference::{local_name, Context};
use crate::validator::string::{declared_choices, string_check};

verus! {

/// The first name among `required`, from position `from` on, that keys no
/// entry of a mapping.
pub open spec fn missing_required(
    required: Seq<String>,
    entries: Seq<(Node, Node)>,
    from: int,
) -> Option<Seq<char>>
    decreases required.len() - from,
{
    if from < 0 || from >= required.len() {
        None
    } else if !has_key(entries, required[from]@) {
        Some(required[from]@)
    } else {
        missing_required(required, entries, from + 1)
    }
}

/// The names that an object schema requires, in the order in which it lists
/// them; none where it lists none.
pub open spec fn required_names(object: ObjectType) -> Seq<String> {
    match object.required {
        Some(names) => names@,
        None => Seq::empty(),
    }
}

/// What a boolean field reports for `node`.
pub open spec fn boolean_verdict(node: Node) -> Option<Seq<char>> {
    if node is Boolean {
        None
    } else {
        Some("field is not boolean"@)
    }
}

/// What an integer field with validator `validator` reports for `node`.
pub open spec fn integer_verdict(validator: IntegerValidator, node: Node) -> Option<Seq<char>> {
    match node {
        Node::Integer(i) => validator.check(i),
        _ => Some("field is not integer"@),
    }
}

/// What a string field declared as `type_string` reports for `node`.
pub open spec fn string_verdict(type_string: StringType, formats: Formats<String>, node: Node) -> Option<
    Seq<char>,
> {
    match node {
        Node::String(s) => string_check(
            formats.spec_resolve(type_string.format),
            declared_choices(type_string),
            s@,
        ),
        _ => Some("field is not string"@),
    }
}

/// The first violation that the schema node `attribute` finds in `node`,
/// where references resolve and formats are looked up in `context`.
///
/// A reference takes precedence over a declared type. A schema node with
/// neither, or with a type that has no validator, accepts nothing.
pub open spec fn attribute_verdict(attribute: Attribute, context: Context, node: Node) -> Option<
    Seq<char>,
>
    decreases node, 2nat,
{
    match attribute.reference {
        Some(uri) => reference_verdict(uri@, context, node),
        None => match attribute.definition {
            Some(TypeDefinition::Boolean) => boolean_verdict(node),
            Some(TypeDefinition::Integer(t)) => integer_verdict(
                IntegerValidator::spec_from(t, context.formats.integer),
                node,
            ),
            Some(TypeDefinition::String(t)) => string_verdict(t, context.formats.string, node),
            Some(TypeDefinition::Array { items }) => array_verdict(*items, context, node),
            Some(TypeDefinition::Object(t)) => object_verdict(t, context, node),
            _ => Some("unknown type"@),
        },
    }
}

/// What a reference written as `uri` reports for `node`: what the object
/// schema that it resolves to reports, or that there is no such reference.
pub open spec fn reference_verdict(uri: Seq<char>, context: Context, node: Node) -> Option<
    Seq<char>,
>
    decreases node, 1nat,
{
    match local_name(uri) {
        Some(name) => match context.querier.resolve(name) {
            Some(object) => object_verdict(object, context, node),
            None => Some("No such reference"@),
        },
        None => Some("No such reference"@),
    }
}

/// What an array of `items` reports for `node`.
pub open spec fn array_verdict(items: Attribute, context: Context, node: Node) -> Option<Seq<char>>
    decreases node, 1nat,
{
    match node {
        Node::Array(elements) => elements_verdict(items, context, elements@, 0),
        _ => Some("field is not array"@),
    }
}

/// The first violation among `elements`, from position `from` on.
pub open spec fn elements_verdict(
    items: Attribute,
    context: Context,
    elements: Seq<Node>,
    from: int,
) -> Option<Seq<char>>
    decreases elements, 0nat, elements.len() - from,
{
    if from < 0 || from >= elements.len() {
        None
    } else {
        match attribute_verdict(items, context, elements[from]) {
            Some(violation) => Some(violation),
            None => elements_verdict(items, context, elements, from + 1),
        }
    }
}

/// What the object schema `object` reports for `node`: first a required name
/// that keys no entry, then the first entry that is out of place.
pub open spec fn object_verdict(object: ObjectType, context: Context, node: Node) -> Option<
    Seq<char>,
>
    decreases node, 0nat,
{
    match node {
        Node::Hash(entries) => match missing_required(required_names(object), entries@, 0) {
            Some(name) => Some("Field "@ + name + " is required"@),
            None => entries_verdict(object.properties@, context, entries@, 0),
        },
        _ => Some("field is not object"@),
    }
}

/// What the declared `properties` report for one entry of a mapping: that
/// its key is no string, that its key is not declared, or what the declared
/// property reports for its value.
pub open spec fn entry_verdict(
    properties: Seq<(String, Attribute)>,
    context: Context,
    entries: Seq<(Node, Node)>,
    at: int,
) -> Option<Seq<char>>
    decreases entries, 0nat,
{
    if at < 0 || at >= entries.len() {
        None
    } else {
        match entries[at].0 {
            Node::String(key) => match position(properties, key@, 0) {
                None => Some("Unknown field "@ + key@),
                Some(p) => attribute_verdict(properties[p].1, context, entries[at].1),
            },
            _ => Some("unexpected field type"@),
        }
    }
}

/// The first violation among `entries`, from position `from` on.
pub open spec fn entries_verdict(
    properties: Seq<(String, Attribute)>,
    context: Context,
    entries: Seq<(Node, Node)>,
    from: int,
) -> Option<Seq<char>>
    decreases entries, 1nat, entries.len() - from,
{
    if from < 0 || from >= entries.len() {
        None
    } else {
        match entry_verdict(properties, context, entries, from) {
            Some(violation) => Some(violation),
            None => entries_verdict(properties, context, entries, from + 1),
        }
    }
}

/// A mapping that lacks a required name is told so, whatever else is out
/// of place in it.
pub proof fn lemma_required_comes_first(object: ObjectType, context: Context, node: Node)
    requires
        node is Hash,
    ensures
        missing_required(required_names(object), node->Hash_0@, 0) matches Some(name)
            ==> object_verdict(object, context, node) == Some("Field "@ + name + " is required"@),
{
}

/// Where some entry is out of place, the entries report a violation; and
/// where no entry before it is out of place, they report what it reports.
pub proof fn lemma_entry_out_of_place(
    properties: Seq<(String, Attribute)>,
    context: Context,
    entries: Seq<(Node, Node)>,
    from: int,
    at: int,
)
    requires
        0 <= from <= at < entries.len(),
        entry_verdict(properties, context, entries, at) is Some,
    ensures
        entries_verdict(properties, context, entries, from) is Some,
        (forall|j: int| from <= j < at ==> entry_verdict(properties, context, entries, j) is None)
            ==> entries_verdict(properties, context, entries, from) == entry_verdict(
            properties,
            context,
            entries,
            at,
        ),
    decreases at - from,
{
    assert(entries_verdict(properties, context, entries, from) == match entry_verdict(
        properties,
        context,
        entries,
        from,
    ) {
        Some(violation) => Some(violation),
        None => entries_verdict(properties, context, entries, from + 1),
    });
    if from < at {
        lemma_entry_out_of_place(properties, context, entries, from + 1, at);
        if forall|j: int| from <= j < at ==> entry_verdict(properties, context, entries, j) is None {
            assert(entry_verdict(properties, context, entries, from) is None);
        }
    }
}

/// An entry under a name that the object does not declare makes the
/// mapping fail even where every required name is there; and where no
/// entry before it is out of place, the mapping is told the name.
pub proof fn lemma_undeclared_name(
    object: ObjectType,
    context: Context,
    node: Node,
    at: int,
    key: String,
)
    requires
        node is Hash,
        missing_required(required_names(object), node->Hash_0@, 0) is None,
        0 <= at < node->Hash_0@.len(),
        node->Hash_0@[at].0 == Node::String(key),
        position(object.properties@, key@, 0) is None,
    ensures
        object_verdict(object, context, node) is Some,
        (forall|j: int|
            0 <= j < at ==> entry_verdict(object.properties@, context, node->Hash_0@, j) is None)
            ==> object_verdict(object, context, node) == Some("Unknown field "@ + key@),
{
    let entries = node->Hash_0@;
    assert(entry_verdict(object.properties@, context, entries, at) == Some(
        "Unknown field "@ + key@,
    ));
    lemma_entry_out_of_place(object.properties@, context, entries, 0, at);
}

/// A field that declares a format under a name that its table does not
/// hold rejects every node.
pub proof fn lemma_unregistered_format_rejects(attribute: Attribute, context: Context, node: Node)
    requires
        attribute.reference is None,
        match attribute.definition {
            Some(TypeDefinition::Integer(t)) => t.format matches Some(name)
                && context.formats.integer.lookup(name@) is None,
            Some(TypeDefinition::String(t)) => t.format matches Some(name)
                && context.formats.string.lookup(name@) is None,
            _ => false,
        },
    ensures
        attribute_verdict(attribute, context, node) is Some,
{
    match attribute.definition {
        Some(TypeDefinition::Integer(t)) => {
            crate::validator::format::lemma_unregistered(context.formats.integer, t.format->Some_0);
        },
        Some(TypeDefinition::String(t)) => {
            crate::validator::format::lemma_unregistered(context.formats.string, t.format->Some_0);
        },
        _ => {},
    }
}

} // verus!
