//! References to named definitions, and their resolution.
use vstd::prelude::*;
use crate::common::{ObjectType, TypeDefinition};
use crate::definition::Definitions;
use crate::document::Node;
use crate::table::{find, position};
use crate::validator::format::Registry;
use crate::validator::object::ObjectValidator;
use crate::validator::verdict::object_verdict;
use crate::validator::Validator;

verus! {

/// Where a reference points: at a named definition of the same document, or
/// nowhere that this library can follow.
#[derive(PartialEq, Debug)]
pub enum Location {
    Local(String),
    Unknown,
}

impl Location {
    /// The name of the definition that the location points at, if it points
    /// at one.
    pub open spec fn name(self) -> Option<Seq<char>> {
        match self {
            Location::Local(name) => Some(name@),
            Location::Unknown => None,
        }
    }
}

impl Clone for Location {
    fn clone(&self) -> (location: Self)
        ensures
            location == *self,
    {
        match self {
            Location::Local(name) => Location::Local(name.clone()),
            Location::Unknown => Location::Unknown,
        }
    }
}

/// The name that a reference written as `uri` points at: what follows
/// `#/definitions/`, where the reference begins with that.
pub open spec fn local_name(uri: Seq<char>) -> Option<Seq<char>> {
    let prefix = "#/definitions/"@;
    if prefix.is_prefix_of(uri) {
        Some(uri.skip(prefix.len() as int))
    } else {
        None
    }
}

/// A source of object schemas by name: the universe that references resolve
/// into.
pub trait ValidatorQuerier {
    /// The object schema that `name` stands for, if it stands for one. An
    /// implementation that does not say which it is still has to answer the
    /// same way each time.
    open spec fn resolve(&self, name: Seq<char>) -> Option<ObjectType> {
        arbitrary()
    }

    fn get(&self, location: &Location) -> (found: Option<&ObjectType>)
        ensures
            match location.name() {
                Some(name) => match found {
                    Some(object) => self.resolve(name) == Some(*object),
                    None => self.resolve(name) is None,
                },
                None => found is None,
            },
    ;
}

/// What a schema is compiled against: the definitions that its references
/// resolve into and the formats that its fields can declare.
pub struct Context<'a> {
    pub querier: &'a dyn ValidatorQuerier,
    pub formats: &'a Registry,
}

impl<'a> Clone for Context<'a> {
    fn clone(&self) -> (context: Self)
        ensures
            context == *self,
    {
        *self
    }
}

impl<'a> Copy for Context<'a> {

}

impl From<String> for Location {
    fn from(uri: String) -> (location: Location)
        ensures
            location.name() == local_name(uri@),
    {
        let prefix = "#/definitions/";
        let text = uri.as_str();
        let n = text.unicode_len();
        let m = prefix.unicode_len();
        if n < m {
            return Location::Unknown;
        }
        let mut i: usize = 0;
        while i < m
            invariant
                i <= m <= n,
                n == uri@.len(),
                m == prefix@.len(),
                prefix@ == "#/definitions/"@,
                text@ == uri@,
                forall|j: int| 0 <= j < i ==> uri@[j] == prefix@[j],
            decreases m - i,
        {
            if text.get_char(i) != prefix.get_char(i) {
                assert(uri@.subrange(0, m as int)[i as int] == uri@[i as int]);
                return Location::Unknown;
            }
            i += 1;
        }
        assert(prefix@ =~= uri@.subrange(0, prefix@.len() as int));
        let name = text.substring_char(m, n);
        assert(name@ =~= uri@.skip(m as int));
        Location::Local(String::from_str(name))
    }
}

/// What `from` returns is stated by its own `ensures`, over the content of
/// the result: two values of equal content need not be the same value, so
/// no one value is named here.
impl vstd::std_specs::convert::FromSpecImpl<String> for Location {
    open spec fn obeys_from_spec() -> bool {
        false
    }

    open spec fn from_spec(uri: String) -> Self {
        arbitrary()
    }
}

impl ValidatorQuerier for Definitions {
    open spec fn resolve(&self, name: Seq<char>) -> Option<ObjectType> {
        match position(self@, name, 0) {
            Some(i) => match self@[i].1.definition {
                Some(TypeDefinition::Object(object)) => Some(object),
                _ => None,
            },
            None => None,
        }
    }

    fn get(&self, location: &Location) -> (found: Option<&ObjectType>) {
        match location {
            Location::Local(path) => match find(self, path) {
                Some(i) => match &self[i].1.definition {
                    Some(TypeDefinition::Object(object)) => Some(object),
                    _ => None,
                },
                None => None,
            },
            Location::Unknown => None,
        }
    }
}

/// The validator of a reference: it looks the target up each time it
/// validates a node.
pub struct ReferenceValidator<'a> {
    pub location: Location,
    pub context: Context<'a>,
}

impl<'a> Validator<Node> for ReferenceValidator<'a> {
    open spec fn spec_validate(&self, node: &Node) -> Option<Seq<char>> {
        match self.location.name() {
            Some(name) => match self.context.querier.resolve(name) {
                Some(object) => object_verdict(object, self.context, *node),
                None => Some("No such reference"@),
            },
            None => Some("No such reference"@),
        }
    }

    fn validate(&self, node: &Node) -> (violation: Option<String>)
        decreases node, 2nat,
    {
        match &self.location {
            Location::Local(_) => match self.context.querier.get(&self.location) {
                Some(object) => {
                    let validator = ObjectValidator::new(object, &self.context);
                    validator.validate(node)
                },
                None => Some(String::from_str("No such reference")),
            },
            Location::Unknown => Some(String::from_str("No such reference")),
        }
    }
}

} // verus!
