//! The named definitions of a schema document.
use vstd::prelude::*;
use crate::common::Attribute;

verus! {

/// The named schema nodes that references resolve into. A name stands for
/// the first entry that carries it.
pub type Definitions = Vec<(String, Attribute)>;

} // verus!
