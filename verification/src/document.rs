//! The documents that are validated, as trees of nodes.
use vstd::prelude::*;

verus! {

/// One node of a structured document: a scalar, a sequence, or a mapping.
///
/// A mapping keeps its entries in the order in which the document lists them.
#[derive(Debug, PartialEq)]
pub enum Node {
    Real(String),
    Integer(i64),
    String(String),
    Boolean(bool),
    Array(Vec<Node>),
    Hash(Vec<(Node, Node)>),
    Alias(usize),
    Null,
    BadValue,
}

/// Whether `node` is a string scalar that spells `name`.
pub open spec fn is_key(node: Node, name: Seq<char>) -> bool {
    node matches Node::String(s) && s@ == name
}

/// Whether some entry of a mapping is keyed by the string `name`.
pub open spec fn has_key(entries: Seq<(Node, Node)>, name: Seq<char>) -> bool {
    exists|i: int| 0 <= i < entries.len() && is_key(#[trigger] entries[i].0, name)
}

/// Looks for an entry keyed by the string `name`.
pub fn contains_key(entries: &Vec<(Node, Node)>, name: &String) -> (found: bool)
    ensures
        found == has_key(entries@, name@),
{
    let mut i: usize = 0;
    while i < entries.len()
        invariant
            i <= entries.len(),
            forall|j: int| 0 <= j < i ==> !is_key(#[trigger] entries@[j].0, name@),
        decreases entries.len() - i,
    {
        match &entries[i].0 {
            Node::String(s) => {
                if *s == *name {
                    return true;
                }
            },
            _ => {},
        }
        i += 1;
    }
    false
}

} // verus!
