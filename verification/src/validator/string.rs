//! The validator of strings, and the built-in string formats.
use vstd::prelude::*;
use crate::common::StringType;
use crate::document::Node;
use crate::text::{split, split_str, views};
use crate::validator::format::{Format, FormatValidator};
use crate::validator::Validator;

verus! {

/// Whether `c` is a decimal digit.
pub open spec fn is_digit(c: char) -> bool {
    '0' <= c <= '9'
}

/// The number that the decimal digits `s` spell.
pub open spec fn decimal(s: Seq<char>) -> nat
    decreases s.len(),
{
    if s.len() == 0 {
        0
    } else {
        (decimal(s.drop_last()) * 10 + (s.last() as nat - '0' as nat)) as nat
    }
}

/// One part of a dotted quad: one to three decimal digits that spell a number
/// up to 255, with no zero in front of another digit.
pub open spec fn is_octet(s: Seq<char>) -> bool {
    &&& 1 <= s.len() <= 3
    &&& forall|i: int| 0 <= i < s.len() ==> is_digit(#[trigger] s[i])
    &&& (s.len() > 1 ==> s[0] != '0')
    &&& decimal(s) <= 255
}

/// An IPv4 address in dotted-quad notation: four octets with dots between.
pub open spec fn is_ipv4(s: Seq<char>) -> bool {
    let parts = split(s, '.');
    parts.len() == 4 && forall|i: int| 0 <= i < 4 ==> is_octet(#[trigger] parts[i])
}

/// Whether `part` is one part of a dotted quad.
pub fn check_octet(part: &str) -> (ok: bool)
    ensures
        ok == is_octet(part@),
{
    let n = part.unicode_len();
    if n < 1 || n > 3 {
        return false;
    }
    let mut value: u32 = 0;
    let mut i: usize = 0;
    assert(part@.take(0) =~= Seq::<char>::empty());
    while i < n
        invariant
            n == part@.len(),
            1 <= n <= 3,
            i <= n,
            forall|j: int| 0 <= j < i ==> is_digit(#[trigger] part@[j]),
            i > 1 ==> part@[0] != '0',
            value == decimal(part@.take(i as int)),
            value <= 999,
        decreases n - i,
    {
        let c = part.get_char(i);
        if c < '0' || c > '9' {
            return false;
        }
        if i == 1 && part.get_char(0) == '0' {
            return false;
        }
        let digit: u32 = c as u32 - '0' as u32;
        proof {
            let prefix = part@.take(i + 1);
            assert(prefix.drop_last() =~= part@.take(i as int));
            assert(prefix.last() == c);
            assert(i < 3);
            assert(value <= 99) by {
                lemma_decimal_bound(part@.take(i as int));
            }
        }
        value = value * 10 + digit;
        i += 1;
    }
    assert(part@.take(n as int) =~= part@);
    value <= 255
}

/// Up to two digits spell a number below one hundred.
pub proof fn lemma_decimal_bound(s: Seq<char>)
    requires
        s.len() <= 2,
        forall|j: int| 0 <= j < s.len() ==> is_digit(#[trigger] s[j]),
    ensures
        decimal(s) <= 99,
        s.len() <= 1 ==> decimal(s) <= 9,
    decreases s.len(),
{
    if s.len() > 0 {
        let front = s.drop_last();
        assert forall|j: int| 0 <= j < front.len() implies is_digit(#[trigger] front[j]) by {
            assert(front[j] == s[j]);
        }
        lemma_decimal_bound(front);
        assert(is_digit(s[s.len() - 1]));
        if s.len() == 1 {
            assert(front.len() == 0);
            assert(decimal(front) == 0);
        }
    }
}

/// Whether `s` is an IPv4 address in dotted-quad notation.
pub fn check_ipv4(s: &str) -> (ok: bool)
    ensures
        ok == is_ipv4(s@),
{
    let parts = split_str(s, '.');
    if parts.len() != 4 {
        return false;
    }
    let mut i: usize = 0;
    while i < 4
        invariant
            i <= 4,
            parts@.len() == 4,
            views(parts@) == split(s@, '.'),
            forall|j: int| 0 <= j < i ==> is_octet(#[trigger] split(s@, '.')[j]),
        decreases 4 - i,
    {
        assert(views(parts@)[i as int] == parts@[i as int]@);
        if !check_octet(parts[i]) {
            return false;
        }
        i += 1;
    }
    true
}

/// The built-in string format for IPv4 addresses in dotted-quad notation.
pub struct IPv4Format;

impl FormatValidator<String> for IPv4Format {
    open spec fn accepts(&self, s: Seq<char>) -> bool {
        is_ipv4(s)
    }

    open spec fn spec_display(&self) -> Seq<char> {
        "IPv4"@
    }

    fn validate(&self, s: String) -> (ok: bool) {
        check_ipv4(s.as_str())
    }

    fn display(&self) -> (name: String) {
        String::from_str("IPv4")
    }
}

/// The table of the formats that a string field can declare.
pub type Formats = crate::validator::format::Formats<String>;

/// The table of the built-in string formats: `ipv4` and nothing else.
pub fn string_formats() -> (formats: Formats)
    ensures
        formats.well_formed(),
        formats.lookup("ipv4"@) == Some(Format::<String> { check: &IPv4Format }),
        forall|name: Seq<char>| name != "ipv4"@ ==> formats.lookup(name) is None,
{
    let mut formats = Formats::new();
    formats.insert(String::from_str("ipv4"), Format { check: &IPv4Format });
    formats
}

/// Replaces the whole table `current` by a copy of `formats`.
pub fn set_formats(current: &mut Formats, formats: &Formats)
    ensures
        final(current).entries@ == formats.entries@,
{
    current.replace_with(formats);
}

/// Whether one of `choices` spells `s`.
pub open spec fn contains(choices: Seq<String>, s: Seq<char>) -> bool {
    exists|i: int| 0 <= i < choices.len() && (#[trigger] choices[i])@ == s
}

/// The first `n` of `choices`, with a comma and a space between each two.
pub open spec fn joined(choices: Seq<String>, n: int) -> Seq<char>
    decreases n,
{
    if n <= 0 {
        Seq::empty()
    } else if n == 1 {
        choices[0]@
    } else {
        joined(choices, n - 1) + ", "@ + choices[n - 1]@
    }
}

/// `choices` in square brackets, with a comma and a space between each two.
pub open spec fn bracketed(choices: Seq<String>) -> Seq<char> {
    "["@ + joined(choices, choices.len() as int) + "]"@
}

/// The first violation of the string `s` against a format and a list of
/// choices: the format comes first, and the choices bind only where there is
/// at least one.
pub open spec fn string_check(format: Format<String>, choices: Seq<String>, s: Seq<char>) -> Option<
    Seq<char>,
> {
    if !format.check.accepts(s) {
        Some("field is not format of "@ + format.check.spec_display())
    } else if choices.len() > 0 && !contains(choices, s) {
        Some("field is not one of "@ + bracketed(choices))
    } else {
        None
    }
}

/// The choices that a string field declares; none where it declares none.
pub open spec fn declared_choices(type_string: StringType) -> Seq<String> {
    match type_string.choices {
        Some(choices) => choices@,
        None => Seq::empty(),
    }
}

/// Checks a string against a format and a list of choices. An empty list
/// of choices admits every string.
pub struct StringValidator {
    pub format: Format<String>,
    pub choices: Vec<String>,
}

impl Clone for StringValidator {
    fn clone(&self) -> (validator: Self)
        ensures
            validator.format == self.format,
            validator.choices@ == self.choices@,
    {
        StringValidator { format: self.format, choices: self.choices.clone() }
    }
}

impl StringValidator {
    /// Whether this is the validator of a field declared as `type_string`,
    /// with its format taken from `formats`: it holds the format that the
    /// declared name stands for and the declared choices, none where the
    /// field declares none.
    pub open spec fn is_from(&self, type_string: StringType, formats: Formats) -> bool {
        &&& self.format == formats.spec_resolve(type_string.format)
        &&& self.choices@ == declared_choices(type_string)
    }

    /// The choices in square brackets, in the order in which they are held.
    pub open spec fn spec_format_choices(&self) -> Seq<char> {
        bracketed(self.choices@)
    }

    /// The first violation of `s`.
    pub open spec fn check(&self, s: Seq<char>) -> Option<Seq<char>> {
        string_check(self.format, self.choices@, s)
    }

    /// The choices as a message lists them.
    pub fn format_choices(&self) -> (text: String)
        ensures
            text@ == self.spec_format_choices(),
    {
        let mut text = String::from_str("[");
        let mut i: usize = 0;
        assert(text@ =~= "["@ + joined(self.choices@, 0));
        while i < self.choices.len()
            invariant
                i <= self.choices.len(),
                text@ == "["@ + joined(self.choices@, i as int),
            decreases self.choices.len() - i,
        {
            if i > 0 {
                text.append(", ");
            }
            text.append(self.choices[i].as_str());
            assert(text@ =~= "["@ + joined(self.choices@, i + 1));
            i += 1;
        }
        text.append("]");
        text
    }

    fn has_choice(&self, s: &String) -> (found: bool)
        ensures
            found == contains(self.choices@, s@),
    {
        let mut i: usize = 0;
        while i < self.choices.len()
            invariant
                i <= self.choices.len(),
                forall|j: int| 0 <= j < i ==> (#[trigger] self.choices@[j])@ != s@,
            decreases self.choices.len() - i,
        {
            if self.choices[i] == *s {
                return true;
            }
            i += 1;
        }
        false
    }
}

impl<'a> From<(&'a StringType, &'a Formats)> for StringValidator {
    fn from(source: (&'a StringType, &'a Formats)) -> (validator: StringValidator)
        ensures
            validator.is_from(*source.0, *source.1),
    {
        let (type_string, formats) = source;
        StringValidator {
            format: formats.resolve(&type_string.format),
            choices: match &type_string.choices {
                Some(choices) => choices.clone(),
                None => Vec::new(),
            },
        }
    }
}

/// What `from` returns is stated by its own `ensures`, over the content of
/// the result: two values of equal content need not be the same value, so
/// no one value is named here.
impl<'a> vstd::std_specs::convert::FromSpecImpl<(&'a StringType, &'a Formats)> for StringValidator {
    open spec fn obeys_from_spec() -> bool {
        false
    }

    open spec fn from_spec(source: (&'a StringType, &'a Formats)) -> Self {
        arbitrary()
    }
}

impl Validator<str> for StringValidator {
    open spec fn spec_validate(&self, s: &str) -> Option<Seq<char>> {
        self.check(s@)
    }

    fn validate(&self, s: &str) -> (violation: Option<String>) {
        assert(self.spec_validate(s) == self.check(s@));
        if !self.format.check.validate(String::from_str(s)) {
            let mut text = String::from_str("field is not format of ");
            let name = self.format.check.display();
            text.append(name.as_str());
            return Some(text);
        }
        if self.choices.len() > 0 {
            let owned = String::from_str(s);
            if !self.has_choice(&owned) {
                let mut text = String::from_str("field is not one of ");
                let listed = self.format_choices();
                text.append(listed.as_str());
                return Some(text);
            }
        }
        None
    }
}

impl Validator<Node> for StringValidator {
    open spec fn spec_validate(&self, node: &Node) -> Option<Seq<char>> {
        match *node {
            Node::String(s) => self.check(s@),
            _ => Some("field is not string"@),
        }
    }

    fn validate(&self, node: &Node) -> (violation: Option<String>) {
        match node {
            Node::String(s) => <Self as Validator<str>>::validate(self, s.as_str()),
            _ => Some(String::from_str("field is not string")),
        }
    }
}

impl Default for StringValidator {
    fn default() -> (validator: StringValidator)
        ensures
            validator.format == Format::<String>::spec_none(),
            validator.choices@.len() == 0,
    {
        StringValidator { format: Format::none(), choices: Vec::new() }
    }
}


/// Whether `piece` stands somewhere in `text`, unbroken.
pub open spec fn occurs_in(piece: Seq<char>, text: Seq<char>) -> bool {
    exists|at: int|
        0 <= at && at + piece.len() <= text.len() && #[trigger] text.subrange(
            at,
            at + piece.len(),
        ) == piece
}

/// With at least one choice, and a format that the string has, the string
/// passes if it is one of the choices, and is otherwise told the choices.
pub proof fn lemma_choices(format: Format<String>, choices: Seq<String>, s: Seq<char>)
    requires
        choices.len() > 0,
        format.check.accepts(s),
    ensures
        contains(choices, s) ==> string_check(format, choices, s) is None,
        !contains(choices, s) ==> string_check(format, choices, s) == Some(
            "field is not one of "@ + bracketed(choices),
        ),
{
}

/// Each of the first `n` choices stands in what `joined` makes of them.
pub proof fn lemma_joined_lists(choices: Seq<String>, n: int, i: int)
    requires
        0 <= i < n <= choices.len(),
    ensures
        occurs_in(choices[i]@, joined(choices, n)),
    decreases n,
{
    let text = joined(choices, n);
    let piece = choices[i]@;
    if n == 1 {
        assert(text.subrange(0, 0 + piece.len() as int) =~= piece);
    } else if i == n - 1 {
        let at = text.len() - piece.len();
        assert(text.subrange(at, at + piece.len()) =~= piece);
    } else {
        lemma_joined_lists(choices, n - 1, i);
        let front = joined(choices, n - 1);
        let at = choose|at: int|
            0 <= at && at + piece.len() <= front.len() && #[trigger] front.subrange(
                at,
                at + piece.len(),
            ) == piece;
        assert(text.subrange(at, at + piece.len()) =~= front.subrange(at, at + piece.len()));
    }
}

/// The message about the choices names every one of them.
pub proof fn lemma_bracketed_lists(choices: Seq<String>, i: int)
    requires
        0 <= i < choices.len(),
    ensures
        occurs_in(choices[i]@, bracketed(choices)),
{
    reveal_strlit("[");
    let inner = joined(choices, choices.len() as int);
    let text = bracketed(choices);
    let piece = choices[i]@;
    lemma_joined_lists(choices, choices.len() as int, i);
    let at = choose|at: int|
        0 <= at && at + piece.len() <= inner.len() && #[trigger] inner.subrange(
            at,
            at + piece.len(),
        ) == piece;
    assert(text.subrange(at + 1, at + 1 + piece.len()) =~= inner.subrange(at, at + piece.len()));
}

/// A string field that declares a format under a name that the table does
/// not hold rejects every string, whatever its choices.
pub proof fn lemma_unregistered_format(type_string: StringType, formats: Formats, s: Seq<char>)
    requires
        type_string.format matches Some(name) && formats.lookup(name@) is None,
    ensures
        string_check(formats.spec_resolve(type_string.format), declared_choices(type_string), s)
            is Some,
{
    crate::validator::format::lemma_unregistered(formats, type_string.format->Some_0);
}

} // verus!
