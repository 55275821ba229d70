//! The schema document as a whole.
use vstd::prelude::*;
use crate::definition::Definitions;
use crate::path::Paths;

verus! {

/// A schema document: its version tag, its named definitions and its routes.
#[derive(Debug, PartialEq)]
pub struct Swagger {
    pub spec: Option<String>,
    pub definitions: Option<Definitions>,
    pub paths: Option<Paths>,
}

} // verus!
