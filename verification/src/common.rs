//! The schema: what a field of a document is declared to be.
use vstd::prelude::*;
use crate::table::distinct_names;

verus! {

/// An integer field: an optional format by name and optional inclusive
/// bounds.
#[derive(Debug, PartialEq)]
pub struct IntegerType {
    pub format: Option<String>,
    pub minimum: Option<i64>,
    pub maximum: Option<i64>,
}

/// A string field: an optional format by name and an optional list of the
/// strings that it may be.
#[derive(Debug, PartialEq)]
pub struct StringType {
    pub format: Option<String>,
    pub choices: Option<Vec<String>>,
}

/// An object: its properties by name, and the names that a document has
/// to hold. A name stands for the first property that carries it.
#[derive(Debug, PartialEq)]
pub struct ObjectType {
    pub properties: Vec<(String, Attribute)>,
    pub required: Option<Vec<String>>,
}

/// The declared type of a schema node. `File` and `Undefined` have no
/// validator: a node of such a type accepts nothing.
#[derive(Debug, PartialEq)]
pub enum TypeDefinition {
    Boolean,
    Integer(IntegerType),
    String(StringType),
    Array { items: Box<Attribute> },
    Object(ObjectType),
    File,
    Undefined,
}

/// A schema node: a declared type, or a reference to a named definition,
/// which takes precedence where both are there.
#[derive(Debug, PartialEq)]
pub struct Attribute {
    pub definition: Option<TypeDefinition>,
    pub reference: Option<String>,
    pub description: Option<String>,
}

impl ObjectType {
    /// No two properties carry the same name, so that each property can be
    /// reached by its name.
    pub open spec fn well_formed(&self) -> bool {
        distinct_names(self.properties@)
    }
}

} // verus!
