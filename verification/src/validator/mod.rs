//! Validators: what a schema node compiles to.
use vstd::prelude::*;

pub mod array;
pub mod boolean;
pub mod common;
pub mod format;
pub mod integer;
pub mod object;
pub mod reference;
pub mod string;
pub mod verdict;

verus! {

/// What a check reports: nothing, or the first violation it met.
pub open spec fn message(violation: Option<String>) -> Option<Seq<char>> {
    match violation {
        Some(text) => Some(text@),
        None => None,
    }
}

/// A check of values of type `T` that reports the first violation it finds.
pub trait Validator<T: ?Sized> {
    /// The violation that `validate` reports for `t`, if any. An
    /// implementation that does not say what it reports still has to report
    /// the same each time.
    open spec fn spec_validate(&self, t: &T) -> Option<Seq<char>> {
        arbitrary()
    }

    fn validate(&self, t: &T) -> (violation: Option<String>)
        ensures
            message(violation) == self.spec_validate(t),
    ;
}

/// The validator of a schema node that declares no type this library knows.
pub struct UnknownValidator;

impl<T> Validator<T> for UnknownValidator {
    open spec fn spec_validate(&self, t: &T) -> Option<Seq<char>> {
        Some("unknown type"@)
    }

    fn validate(&self, t: &T) -> (violation: Option<String>) {
        Some(String::from_str("unknown type"))
    }
}

} // verus!
