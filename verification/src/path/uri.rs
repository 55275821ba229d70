//! Route templates, cut into segments.
use vstd::prelude::*;
use crate::common::TypeDefinition;
use crate::path::{In, Operation, Parameter};
use crate::text::{split, split_str, views};
use crate::validator::format::{Format, Registry};
use crate::validator::integer::IntegerValidator;
use crate::validator::string::StringValidator;

verus! {

/// One piece of a route template: fixed text, or a slot for a parameter
/// with the validator of its type.
pub enum Segment<'a> {
    Fixed(&'a str),
    Text(StringValidator),
    Number(IntegerValidator),
}

/// The pieces of the template `path` between its slashes, without the empty
/// piece in front of a leading slash.
pub open spec fn template_tokens(path: Seq<char>) -> Seq<Seq<char>> {
    let parts = split(path, '/');
    if parts.len() > 0 && parts[0].len() == 0 {
        parts.skip(1)
    } else {
        parts
    }
}

/// Whether `token` is a name in braces.
pub open spec fn is_slot(token: Seq<char>) -> bool {
    token.len() >= 2 && token[0] == '{' && token[token.len() - 1] == '}'
}

/// The name between the braces of a slot.
pub open spec fn slot_name(token: Seq<char>) -> Seq<char> {
    token.subrange(1, token.len() - 1)
}

/// The position of the first of `parameters`, from `from` on, that is
/// named `name` and found in the path.
pub open spec fn path_parameter(parameters: Seq<Parameter>, name: Seq<char>, from: int) -> Option<
    int,
>
    decreases parameters.len() - from,
{
    if from < 0 || from >= parameters.len() {
        None
    } else if parameters[from].name@ == name && parameters[from].in_ == In::Path {
        Some(from)
    } else {
        path_parameter(parameters, name, from + 1)
    }
}

impl<'a> Segment<'a> {
    /// Whether this segment is the one that `token` stands for, given the
    /// declared parameters: fixed text for a token that is no slot or whose
    /// name no path parameter carries, a number for an integer parameter
    /// and text for any other, each with the validator of its type.
    pub open spec fn describes(
        &self,
        token: Seq<char>,
        parameters: Option<Vec<Parameter>>,
        formats: Registry,
    ) -> bool {
        if !is_slot(token) {
            *self matches Segment::Fixed(text) && text@ == token
        } else {
            let found = match parameters {
                Some(list) => path_parameter(list@, slot_name(token), 0),
                None => None,
            };
            match found {
                None => *self matches Segment::Fixed(text) && text@ == slot_name(token),
                Some(k) => match parameters->Some_0@[k].attribute.definition {
                    Some(TypeDefinition::Integer(t)) => *self matches Segment::Number(validator)
                        && validator == IntegerValidator::spec_from(t, formats.integer),
                    Some(TypeDefinition::String(t)) => *self matches Segment::Text(validator)
                        && validator.is_from(t, formats.string),
                    _ => *self matches Segment::Text(validator) && validator.format
                        == Format::<String>::spec_none() && validator.choices@.len() == 0,
                },
            }
        }
    }
}

/// The segments of one route template, handed out one by one.
pub struct SegmentIter<'a> {
    pub tokens: Vec<&'a str>,
    pub parameters: &'a Option<Vec<Parameter>>,
    pub formats: &'a Registry,
    pub token_index: usize,
}

fn find_path_parameter(parameters: &Vec<Parameter>, name: &String) -> (found: Option<usize>)
    ensures
        match found {
            Some(k) => path_parameter(parameters@, name@, 0) == Some(k as int) && k
                < parameters@.len(),
            None => path_parameter(parameters@, name@, 0) is None,
        },
{
    let mut i: usize = 0;
    while i < parameters.len()
        invariant
            i <= parameters.len(),
            path_parameter(parameters@, name@, 0) == path_parameter(parameters@, name@, i as int),
        decreases parameters.len() - i,
    {
        if parameters[i].name == *name && parameters[i].in_ == In::Path {
            return Some(i);
        }
        i += 1;
    }
    None
}

impl<'a> SegmentIter<'a> {
    /// Hands out the segment of the next token; `None` when every token has
    /// been handed out.
    pub fn next(&mut self) -> (segment: Option<Segment<'a>>)
        ensures
            final(self).tokens == old(self).tokens,
            final(self).parameters == old(self).parameters,
            final(self).formats == old(self).formats,
            old(self).token_index >= old(self).tokens@.len() ==> segment is None && final(self).token_index == old(self).token_index,
            old(self).token_index < old(self).tokens@.len() ==> final(self).token_index == old(self).token_index + 1 && segment is Some && segment->Some_0.describes(
                old(self).tokens@[old(self).token_index as int]@,
                *old(self).parameters,
                *old(self).formats,
            ),
    {
        if self.token_index >= self.tokens.len() {
            return None;
        }
        let token: &'a str = self.tokens[self.token_index];
        self.token_index += 1;
        let n = token.unicode_len();
        if n < 2 || token.get_char(0) != '{' || token.get_char(n - 1) != '}' {
            return Some(Segment::Fixed(token));
        }
        let name = token.substring_char(1, n - 1);
        let parameters: &'a Option<Vec<Parameter>> = self.parameters;
        let list = match parameters {
            Some(list) => list,
            None => {
                return Some(Segment::Fixed(name));
            },
        };
        let owned = String::from_str(name);
        match find_path_parameter(list, &owned) {
            None => Some(Segment::Fixed(name)),
            Some(k) => match &list[k].attribute.definition {
                Some(TypeDefinition::Integer(integer_type)) => Some(
                    Segment::Number(IntegerValidator::from((integer_type, &self.formats.integer))),
                ),
                Some(TypeDefinition::String(string_type)) => Some(
                    Segment::Text(StringValidator::from((string_type, &self.formats.string))),
                ),
                _ => Some(Segment::Text(StringValidator::default())),
            },
        }
    }
}

impl<'a> SegmentIter<'a> {
    /// Hands out the segments of all the tokens that are left, in order.
    pub fn collect(&mut self) -> (segments: Vec<Segment<'a>>)
        ensures
            final(self).tokens == old(self).tokens,
            final(self).parameters == old(self).parameters,
            final(self).formats == old(self).formats,
            final(self).token_index == if old(self).token_index < old(self).tokens@.len() {
                old(self).tokens@.len()
            } else {
                old(self).token_index as nat
            },
            segments@.len() == if old(self).token_index < old(self).tokens@.len() {
                old(self).tokens@.len() - old(self).token_index
            } else {
                0
            },
            forall|k: int|
                0 <= k < segments@.len() ==> (#[trigger] segments@[k]).describes(
                    old(self).tokens@[old(self).token_index + k]@,
                    *old(self).parameters,
                    *old(self).formats,
                ),
    {
        let mut segments: Vec<Segment<'a>> = Vec::new();
        while self.token_index < self.tokens.len()
            invariant
                self.tokens == old(self).tokens,
                self.parameters == old(self).parameters,
                self.formats == old(self).formats,
                old(self).token_index <= self.token_index,
                self.token_index == old(self).token_index + segments@.len(),
                segments@.len() > 0 ==> self.token_index <= self.tokens@.len(),
                forall|k: int|
                    0 <= k < segments@.len() ==> (#[trigger] segments@[k]).describes(
                        old(self).tokens@[old(self).token_index + k]@,
                        *old(self).parameters,
                        *old(self).formats,
                    ),
            decreases self.tokens@.len() - self.token_index,
        {
            match self.next() {
                Some(segment) => {
                    segments.push(segment);
                },
                None => {},
            }
        }
        segments
    }
}

impl<'a> From<(&'a String, &'a Operation, &'a Registry)> for SegmentIter<'a> {
    fn from(source: (&'a String, &'a Operation, &'a Registry)) -> (segments: Self)
        ensures
            views(segments.tokens@) == template_tokens(source.0@),
            segments.parameters == &source.1.parameters,
            segments.formats == source.2,
            segments.token_index == 0,
    {
        let (path, operation, formats) = source;
        let mut tokens = split_str(path.as_str(), '/');
        if tokens.len() > 0 && tokens[0].unicode_len() == 0 {
            let ghost parts = tokens@;
            tokens.remove(0);
            assert(views(tokens@) =~= views(parts).skip(1));
        }
        SegmentIter { tokens, parameters: &operation.parameters, formats, token_index: 0 }
    }
}

/// What `from` returns is stated by its own `ensures`, over the content of
/// the result: two values of equal content need not be the same value, so
/// no one value is named here.
impl<'a> vstd::std_specs::convert::FromSpecImpl<(&'a String, &'a Operation, &'a Registry)> for SegmentIter<'a> {
    open spec fn obeys_from_spec() -> bool {
        false
    }

    open spec fn from_spec(source: (&'a String, &'a Operation, &'a Registry)) -> Self {
        arbitrary()
    }
}

} // verus!
