//! The validator of mappings.
use vstd::prelude::*;
use crate::common::{Attribute, ObjectType};
use crate::document::{contains_key, has_key, Node};
use crate::table::{find, lemma_position, lemma_position_by_names, position};
use crate::validator::common::{to_validator, NodeValidator};
use crate::validator::reference::Context;
use crate::validator::verdict::{
    attribute_verdict,
    entries_verdict,
    entry_verdict,
    missing_required,
    object_verdict,
    required_names,
};
use crate::validator::Validator;

verus! {

/// Checks that a node is a mapping with string keys that holds every
/// required name and no name but the declared ones, and that each value
/// passes the validator of its name.
pub struct ObjectValidator<'a> {
    pub properties: Vec<(String, NodeValidator<'a>)>,
    pub required: Vec<String>,
}

/// What `properties` report for one entry of a mapping: that its key is no
/// string, that its key names none of them, or what the validator of the
/// property reports for its value.
pub open spec fn entry_failure(
    properties: Seq<(String, NodeValidator)>,
    entries: Seq<(Node, Node)>,
    at: int,
) -> Option<Seq<char>>
    decreases properties, 0nat, 0nat,
    via entry_failure_decreases
{
    if at < 0 || at >= entries.len() {
        None
    } else {
        match entries[at].0 {
            Node::String(key) => match position(properties, key@, 0) {
                None => Some("Unknown field "@ + key@),
                Some(p) => properties[p].1.spec_validate(&entries[at].1),
            },
            _ => Some("unexpected field type"@),
        }
    }
}

#[via_fn]
proof fn entry_failure_decreases(
    properties: Seq<(String, NodeValidator)>,
    entries: Seq<(Node, Node)>,
    at: int,
) {
    if 0 <= at < entries.len() {
        if let Node::String(key) = entries[at].0 {
            lemma_position(properties, key@, 0);
        }
    }
}

/// The first violation among `entries`, from position `from` on.
pub open spec fn entries_failure(
    properties: Seq<(String, NodeValidator)>,
    entries: Seq<(Node, Node)>,
    from: int,
) -> Option<Seq<char>>
    decreases properties, 1nat, entries.len() - from,
{
    if from < 0 || from >= entries.len() {
        None
    } else {
        match entry_failure(properties, entries, from) {
            Some(violation) => Some(violation),
            None => entries_failure(properties, entries, from + 1),
        }
    }
}

/// Whether `compiled` holds, place by place, the names of `declared` with
/// validators that report what the schema nodes of `declared` report.
pub open spec fn properties_implement(
    compiled: Seq<(String, NodeValidator)>,
    declared: Seq<(String, Attribute)>,
    context: Context,
) -> bool {
    &&& compiled.len() == declared.len()
    &&& forall|i: int|
        0 <= i < compiled.len() ==> (#[trigger] compiled[i]).0@ == declared[i].0@
            && compiled[i].1.implements(declared[i].1, context)
}

/// Compiled properties find among entries what the declared ones find.
pub proof fn lemma_entries(
    compiled: Seq<(String, NodeValidator)>,
    declared: Seq<(String, Attribute)>,
    context: Context,
    entries: Seq<(Node, Node)>,
    from: int,
)
    requires
        properties_implement(compiled, declared, context),
    ensures
        entries_failure(compiled, entries, from) == entries_verdict(
            declared,
            context,
            entries,
            from,
        ),
    decreases entries.len() - from,
{
    if 0 <= from < entries.len() {
        assert(entry_failure(compiled, entries, from) == entry_verdict(
            declared,
            context,
            entries,
            from,
        )) by {
            lemma_entry(compiled, declared, context, entries, from);
        }
        lemma_entries(compiled, declared, context, entries, from + 1);
    }
}

/// Compiled properties report for an entry what the declared ones report.
pub proof fn lemma_entry(
    compiled: Seq<(String, NodeValidator)>,
    declared: Seq<(String, Attribute)>,
    context: Context,
    entries: Seq<(Node, Node)>,
    at: int,
)
    requires
        properties_implement(compiled, declared, context),
    ensures
        entry_failure(compiled, entries, at) == entry_verdict(declared, context, entries, at),
{
    if 0 <= at < entries.len() {
        if let Node::String(key) = entries[at].0 {
            assert forall|j: int| 0 <= j < compiled.len() implies (#[trigger] compiled[j]).0@ == (
            #[trigger] declared[j]).0@ by {}
            lemma_position_by_names(compiled, declared, key@, 0);
            lemma_position(compiled, key@, 0);
            if let Some(p) = position(compiled, key@, 0) {
                assert(compiled[p].1.spec_validate(&entries[at].1) == attribute_verdict(
                    declared[p].1,
                    context,
                    entries[at].1,
                ));
            }
        }
    }
}

impl<'a> ObjectValidator<'a> {
    /// Whether this validator reports for every node what the object schema
    /// `object` reports for it.
    pub open spec fn implements(&self, object: ObjectType, context: Context) -> bool {
        forall|node: Node| #[trigger]
            self.spec_validate(&node) == object_verdict(object, context, node)
    }

    /// What this validator reports for a mapping with the entries `entries`.
    pub open spec fn spec_validate_attributes(&self, entries: Seq<(Node, Node)>) -> Option<Seq<char>> {
        match missing_required(self.required@, entries, 0) {
            Some(name) => Some("Field "@ + name + " is required"@),
            None => entries_failure(self.properties@, entries, 0),
        }
    }

    /// Compiles each property into its validator, under its name, and
    /// takes over the required names.
    pub fn new(obj_type: &ObjectType, context: &Context<'a>) -> (validator: Self)
        ensures
            validator.implements(*obj_type, *context),
            properties_implement(validator.properties@, obj_type.properties@, *context),
            validator.required@ == required_names(*obj_type),
        decreases obj_type, 0nat,
    {
        let mut properties: Vec<(String, NodeValidator<'a>)> = Vec::new();
        let mut i: usize = 0;
        while i < obj_type.properties.len()
            invariant
                i <= obj_type.properties.len(),
                properties@.len() == i,
                forall|j: int|
                    0 <= j < i ==> (#[trigger] properties@[j]).0@ == obj_type.properties@[j].0@
                        && properties@[j].1.implements(obj_type.properties@[j].1, *context),
            decreases obj_type.properties.len() - i,
        {
            proof {
                assert(decreases_to!(obj_type => obj_type.properties));
                assert(decreases_to!(obj_type.properties => obj_type.properties[i as int]));
                assert(decreases_to!(obj_type.properties[i as int] => obj_type.properties[i as int].1));
            }
            let compiled = to_validator(&obj_type.properties[i].1, context);
            let entry = (obj_type.properties[i].0.clone(), compiled);
            properties.push(entry);
            i += 1;
        }
        let required = match &obj_type.required {
            Some(names) => names.clone(),
            None => Vec::new(),
        };
        let validator = ObjectValidator { properties, required };
        proof {
            assert(validator.required@ =~= required_names(*obj_type));
            assert forall|node: Node| #[trigger]
                validator.spec_validate(&node) == object_verdict(*obj_type, *context, node) by {
                if let Node::Hash(entries) = node {
                    lemma_entries(
                        validator.properties@,
                        obj_type.properties@,
                        *context,
                        entries@,
                        0,
                    );
                }
            }
        }
        validator
    }

    /// Checks the entries of a mapping: first that every required name keys
    /// an entry, then the entries one by one, in their order.
    pub fn validate_attributes(&self, hash: &Vec<(Node, Node)>) -> (violation: Option<String>)
        ensures
            crate::validator::message(violation) == self.spec_validate_attributes(hash@),
        decreases hash, 0nat,
    {
        let mut r: usize = 0;
        while r < self.required.len()
            invariant
                r <= self.required.len(),
                missing_required(self.required@, hash@, 0) == missing_required(
                    self.required@,
                    hash@,
                    r as int,
                ),
            decreases self.required.len() - r,
        {
            if !contains_key(hash, &self.required[r]) {
                let mut text = String::from_str("Field ");
                text.append(self.required[r].as_str());
                text.append(" is required");
                assert(text@ =~= "Field "@ + self.required@[r as int]@ + " is required"@);
                return Some(text);
            }
            r += 1;
        }
        let mut i: usize = 0;
        while i < hash.len()
            invariant
                i <= hash.len(),
                missing_required(self.required@, hash@, 0) is None,
                entries_failure(self.properties@, hash@, 0) == entries_failure(
                    self.properties@,
                    hash@,
                    i as int,
                ),
            decreases hash.len() - i,
        {
            assert(entries_failure(self.properties@, hash@, i as int) == match entry_failure(
                self.properties@,
                hash@,
                i as int,
            ) {
                Some(violation) => Some(violation),
                None => entries_failure(self.properties@, hash@, i + 1),
            });
            match &hash[i].0 {
                Node::String(key) => {
                    match find(&self.properties, key) {
                        None => {
                            let mut text = String::from_str("Unknown field ");
                            text.append(key.as_str());
                            return Some(text);
                        },
                        Some(p) => {
                            proof {
                                assert(decreases_to!(hash => hash[i as int]));
                                assert(decreases_to!(hash[i as int] => hash[i as int].1));
                            }
                            let found = self.properties[p].1.validate(&hash[i].1);
                            if found.is_some() {
                                return found;
                            }
                        },
                    }
                },
                _ => {
                    return Some(String::from_str("unexpected field type"));
                },
            }
            i += 1;
        }
        None
    }
}

impl<'a> Validator<Node> for ObjectValidator<'a> {
    open spec fn spec_validate(&self, node: &Node) -> Option<Seq<char>>
        decreases self, 0nat, 0nat,
    {
        match *node {
            Node::Hash(entries) => match missing_required(self.required@, entries@, 0) {
                Some(name) => Some("Field "@ + name + " is required"@),
                None => entries_failure(self.properties@, entries@, 0),
            },
            _ => Some("field is not object"@),
        }
    }

    fn validate(&self, node: &Node) -> (violation: Option<String>)
        decreases node, 1nat,
    {
        match node {
            Node::Hash(hash) => {
                proof {
                    assert(node->Hash_0 == *hash);
                    assert(decreases_to!(node => node->Hash_0));
                }
                self.validate_attributes(hash)
            },
            _ => Some(String::from_str("field is not object")),
        }
    }
}


/// `missing_required` reports the first required name that keys no entry,
/// and none only where every required name keys one.
pub proof fn lemma_missing_required(required: Seq<String>, entries: Seq<(Node, Node)>, from: int)
    requires
        0 <= from,
    ensures
        match missing_required(required, entries, from) {
            Some(name) => exists|k: int|
                from <= k < required.len() && (#[trigger] required[k])@ == name && !has_key(
                    entries,
                    name,
                ) && forall|j: int| from <= j < k ==> has_key(entries, (#[trigger] required[j])@),
            None => forall|j: int|
                from <= j < required.len() ==> has_key(entries, (#[trigger] required[j])@),
        },
    decreases required.len() - from,
{
    if from < required.len() {
        if has_key(entries, required[from]@) {
            lemma_missing_required(required, entries, from + 1);
            if let Some(name) = missing_required(required, entries, from + 1) {
                let k = choose|k: int|
                    from + 1 <= k < required.len() && (#[trigger] required[k])@ == name
                        && !has_key(entries, name) && forall|j: int|
                        from + 1 <= j < k ==> has_key(entries, (#[trigger] required[j])@);
                assert(from <= k < required.len() && required[k]@ == name);
                assert forall|j: int| from <= j < k implies has_key(
                    entries,
                    (#[trigger] required[j])@,
                ) by {}
            }
        } else {
            assert(required[from]@ == required[from]@);
        }
    }
}

/// A mapping that lacks a required name is told so, whatever else is out
/// of place in it: the required names come before the entries.
pub proof fn lemma_required_first(validator: ObjectValidator, entries: Seq<(Node, Node)>)
    ensures
        missing_required(validator.required@, entries, 0) matches Some(name)
            ==> validator.spec_validate_attributes(entries) == Some(
            "Field "@ + name + " is required"@,
        ),
{
}

/// What the entries report is what the first entry out of place reports.
pub proof fn lemma_first_entry_out_of_place(
    properties: Seq<(String, NodeValidator)>,
    entries: Seq<(Node, Node)>,
    from: int,
    at: int,
)
    requires
        0 <= from <= at < entries.len(),
        forall|j: int| from <= j < at ==> entry_failure(properties, entries, j) is None,
        entry_failure(properties, entries, at) is Some,
    ensures
        entries_failure(properties, entries, from) == entry_failure(properties, entries, at),
    decreases at - from,
{
    if from < at {
        assert(entry_failure(properties, entries, from) is None);
        lemma_first_entry_out_of_place(properties, entries, from + 1, at);
    }
}

/// An entry under a name that the object does not declare makes the
/// mapping fail even where every required name is there; and where no
/// entry before it is out of place, the mapping is told the name.
pub proof fn lemma_unknown_field(
    validator: ObjectValidator,
    entries: Seq<(Node, Node)>,
    at: int,
    key: String,
)
    requires
        missing_required(validator.required@, entries, 0) is None,
        0 <= at < entries.len(),
        entries[at].0 == Node::String(key),
        position(validator.properties@, key@, 0) is None,
    ensures
        validator.spec_validate_attributes(entries) is Some,
        (forall|j: int| 0 <= j < at ==> entry_failure(validator.properties@, entries, j) is None)
            ==> validator.spec_validate_attributes(entries) == Some("Unknown field "@ + key@),
{
    let properties = validator.properties@;
    assert(entry_failure(properties, entries, at) == Some("Unknown field "@ + key@));
    lemma_some_entry_out_of_place(properties, entries, 0, at);
    if forall|j: int| 0 <= j < at ==> entry_failure(properties, entries, j) is None {
        lemma_first_entry_out_of_place(properties, entries, 0, at);
    }
}

/// Where some entry is out of place, the entries report a violation.
pub proof fn lemma_some_entry_out_of_place(
    properties: Seq<(String, NodeValidator)>,
    entries: Seq<(Node, Node)>,
    from: int,
    at: int,
)
    requires
        0 <= from <= at < entries.len(),
        entry_failure(properties, entries, at) is Some,
    ensures
        entries_failure(properties, entries, from) is Some,
    decreases at - from,
{
    if from < at {
        lemma_some_entry_out_of_place(properties, entries, from + 1, at);
        assert(entries_failure(properties, entries, from) == match entry_failure(
            properties,
            entries,
            from,
        ) {
            Some(violation) => Some(violation),
            None => entries_failure(properties, entries, from + 1),
        });
    }
}

} // verus!
