//! The validator of integers.
use vstd::prelude::*;
use crate::common::IntegerType;
use crate::document::Node;
use crate::validator::format::{Format, FormatValidator};
use crate::validator::Validator;

verus! {

/// The table of the formats that an integer field can declare.
pub type Formats = crate::validator::format::Formats<i64>;

/// Replaces the whole table `current` by a copy of `formats`.
pub fn set_formats(current: &mut Formats, formats: &Formats)
    ensures
        final(current).entries@ == formats.entries@,
{
    current.replace_with(formats);
}

/// Checks an integer against two inclusive bounds and a format.
#[derive(Clone, Copy)]
pub struct IntegerValidator {
    pub format: Format<i64>,
    pub minimum: i64,
    pub maximum: i64,
}

impl IntegerValidator {
    /// The validator of a field declared as `type_integer`, with its format
    /// taken from `formats`. A bound that the field does not declare is the
    /// end of the `i64` range.
    pub open spec fn spec_from(type_integer: IntegerType, formats: Formats) -> Self {
        IntegerValidator {
            format: formats.spec_resolve(type_integer.format),
            minimum: match type_integer.minimum {
                Some(m) => m,
                None => i64::MIN,
            },
            maximum: match type_integer.maximum {
                Some(m) => m,
                None => i64::MAX,
            },
        }
    }

    /// The first violation of `value`: the lower bound, then the upper bound,
    /// then the format.
    pub open spec fn check(&self, value: i64) -> Option<Seq<char>> {
        if value < self.minimum {
            Some("field is too small"@)
        } else if value > self.maximum {
            Some("field is too large"@)
        } else if !self.format.check.accepts(value) {
            Some("field is not format of "@ + self.format.check.spec_display())
        } else {
            None
        }
    }

}

impl<'a> From<(&'a IntegerType, &'a Formats)> for IntegerValidator {
    fn from(source: (&'a IntegerType, &'a Formats)) -> (validator: Self) {
        let (type_integer, formats) = source;
        IntegerValidator {
            format: formats.resolve(&type_integer.format),
            minimum: match type_integer.minimum {
                Some(m) => m,
                None => i64::MIN,
            },
            maximum: match type_integer.maximum {
                Some(m) => m,
                None => i64::MAX,
            },
        }
    }
}

impl<'a> vstd::std_specs::convert::FromSpecImpl<(&'a IntegerType, &'a Formats)> for IntegerValidator {
    open spec fn obeys_from_spec() -> bool {
        true
    }

    open spec fn from_spec(source: (&'a IntegerType, &'a Formats)) -> Self {
        Self::spec_from(*source.0, *source.1)
    }
}

impl Validator<i64> for IntegerValidator {
    open spec fn spec_validate(&self, value: &i64) -> Option<Seq<char>> {
        self.check(*value)
    }

    fn validate(&self, value: &i64) -> (violation: Option<String>) {
        assert(self.spec_validate(value) == self.check(*value));
        if *value < self.minimum {
            return Some(String::from_str("field is too small"));
        }
        if *value > self.maximum {
            return Some(String::from_str("field is too large"));
        }
        if !self.format.check.validate(*value) {
            let mut text = String::from_str("field is not format of ");
            let name = self.format.check.display();
            text.append(name.as_str());
            return Some(text);
        }
        None
    }
}

impl Validator<Node> for IntegerValidator {
    open spec fn spec_validate(&self, node: &Node) -> Option<Seq<char>> {
        match *node {
            Node::Integer(i) => self.check(i),
            _ => Some("field is not integer"@),
        }
    }

    fn validate(&self, node: &Node) -> (violation: Option<String>) {
        match node {
            Node::Integer(i) => <Self as Validator<i64>>::validate(self, i),
            _ => Some(String::from_str("field is not integer")),
        }
    }
}

impl Default for IntegerValidator {
    fn default() -> (validator: IntegerValidator)
        ensures
            validator.format == Format::<i64>::spec_none(),
            validator.minimum == i64::MIN,
            validator.maximum == i64::MAX,
    {
        IntegerValidator { format: Format::none(), minimum: i64::MIN, maximum: i64::MAX }
    }
}


/// A value below the minimum is too small. The minimum itself is not: it
/// passes wherever the maximum and the format let it.
pub proof fn lemma_minimum(validator: IntegerValidator, value: i64)
    ensures
        value < validator.minimum ==> validator.check(value) == Some("field is too small"@),
        value == validator.minimum && value <= validator.maximum
            && validator.format.check.accepts(value) ==> validator.check(value) is None,
{
}

/// A value above the maximum, and not below the minimum, is too large. The
/// maximum itself is not: it passes wherever the minimum and the format let
/// it.
pub proof fn lemma_maximum(validator: IntegerValidator, value: i64)
    ensures
        validator.minimum <= value && value > validator.maximum ==> validator.check(value) == Some(
            "field is too large"@,
        ),
        value == validator.maximum && validator.minimum <= value
            && validator.format.check.accepts(value) ==> validator.check(value) is None,
{
}

/// A field that declares a minimum and nothing else rejects what is below
/// it and accepts the rest; one that declares a maximum and nothing else
/// rejects what is above it and accepts the rest.
pub proof fn lemma_single_bound(bound: i64, formats: Formats, value: i64)
    ensures
        ({
            let declared = IntegerType { format: None, minimum: Some(bound), maximum: None };
            IntegerValidator::spec_from(declared, formats).check(value) == if value < bound {
                Some("field is too small"@)
            } else {
                None
            }
        }),
        ({
            let declared = IntegerType { format: None, minimum: None, maximum: Some(bound) };
            IntegerValidator::spec_from(declared, formats).check(value) == if value > bound {
                Some("field is too large"@)
            } else {
                None
            }
        }),
{
}

/// An integer field that declares a format under a name that the table
/// does not hold rejects every value, whatever its bounds.
pub proof fn lemma_unregistered_format(type_integer: IntegerType, formats: Formats, value: i64)
    requires
        type_integer.format matches Some(name) && formats.lookup(name@) is None,
    ensures
        IntegerValidator::spec_from(type_integer, formats).check(value) is Some,
{
    crate::validator::format::lemma_unregistered(formats, type_integer.format->Some_0);
}

} // verus!
