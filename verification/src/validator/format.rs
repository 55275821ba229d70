//! Formats: named constraints that callers can add to, and the tables that
//! hold them.
use vstd::prelude::*;
use crate::table::{
    distinct_names,
    find,
    lemma_position,
    lemma_position_by_names,
    lemma_position_push,
    position,
};

verus! {

/// A named constraint on a scalar, beyond its type and bounds. A format can
/// be shared between threads, so that a table of formats can be too.
pub trait FormatValidator<T: View>: Sync {
    /// The values that have this format. An implementation that does not
    /// say which they are still has to decide the same way each time.
    open spec fn accepts(&self, t: T::V) -> bool {
        arbitrary()
    }

    /// The name under which the format appears in messages.
    open spec fn spec_display(&self) -> Seq<char> {
        arbitrary()
    }

    fn validate(&self, t: T) -> (ok: bool)
        ensures
            ok == self.accepts(t@),
    ;

    fn display(&self) -> (name: String)
        ensures
            name@ == self.spec_display(),
    ;
}

/// The format that stands for a name nobody registered: no value has it.
pub struct UnknownFormatValidator;

impl<T: View> FormatValidator<T> for UnknownFormatValidator {
    open spec fn accepts(&self, t: T::V) -> bool {
        false
    }

    open spec fn spec_display(&self) -> Seq<char> {
        "unknown"@
    }

    fn validate(&self, t: T) -> (ok: bool) {
        false
    }

    fn display(&self) -> (name: String) {
        String::from_str("unknown")
    }
}

/// The one value of `UnknownFormatValidator`.
pub const UNKNOWN_FORMAT: UnknownFormatValidator = UnknownFormatValidator;

/// The format of a field that declares none: every value has it.
pub struct NoFormatValidator;

impl<T: View> FormatValidator<T> for NoFormatValidator {
    open spec fn accepts(&self, t: T::V) -> bool {
        true
    }

    open spec fn spec_display(&self) -> Seq<char> {
        "text"@
    }

    fn validate(&self, t: T) -> (ok: bool) {
        true
    }

    fn display(&self) -> (name: String) {
        String::from_str("text")
    }
}

/// The one value of `NoFormatValidator`.
pub const NO_FORMAT: NoFormatValidator = NoFormatValidator;

/// A format as validators and tables hold it: a shared reference to the
/// check, in a value of its own that is copied as a whole.
#[verifier::reject_recursive_types(T)]
pub struct Format<T: View + 'static> {
    pub check: &'static dyn FormatValidator<T>,
}

impl<T: View + 'static> Clone for Format<T> {
    fn clone(&self) -> (format: Self)
        ensures
            format == *self,
    {
        *self
    }
}

impl<T: View + 'static> Copy for Format<T> {

}

impl<T: View + 'static> Format<T> {
    /// The format of a field that declares none.
    pub open spec fn spec_none() -> Self {
        Format { check: &NoFormatValidator }
    }

    /// The format that a name nobody registered stands for.
    pub open spec fn spec_unknown() -> Self {
        Format { check: &UnknownFormatValidator }
    }

    /// The format of a field that declares none.
    pub fn none() -> (format: Self)
        ensures
            format == Self::spec_none(),
    {
        Format { check: &NoFormatValidator }
    }

    /// The format that a name nobody registered stands for.
    pub fn unknown() -> (format: Self)
        ensures
            format == Self::spec_unknown(),
    {
        Format { check: &UnknownFormatValidator }
    }
}

/// A table of named formats for values of one type.
///
/// A name stands for the first entry that carries it.
#[verifier::reject_recursive_types(T)]
pub struct Formats<T: View + 'static> {
    pub entries: Vec<(String, Format<T>)>,
}

impl<T: View + 'static> Formats<T> {
    /// The format registered under `name`, if there is one.
    pub open spec fn lookup(&self, name: Seq<char>) -> Option<Format<T>> {
        match position(self.entries@, name, 0) {
            Some(i) => Some(self.entries@[i].1),
            None => None,
        }
    }

    /// The format that a field declaring `name` is checked with: the permissive
    /// one where no format is declared, the one registered under the name where
    /// there is one, and otherwise the format that rejects every value.
    pub open spec fn spec_resolve(&self, name: Option<String>) -> Format<T> {
        match name {
            None => Format::spec_none(),
            Some(n) => match self.lookup(n@) {
                Some(f) => f,
                None => Format::spec_unknown(),
            },
        }
    }

    /// No two entries carry the same name.
    pub open spec fn well_formed(&self) -> bool {
        distinct_names(self.entries@)
    }

    /// The table without entries.
    pub fn new() -> (formats: Self)
        ensures
            formats.entries@.len() == 0,
            formats.well_formed(),
            forall|name: Seq<char>| formats.lookup(name) is None,
    {
        Formats { entries: Vec::new() }
    }

    /// Registers `format` under `name`, in place of what the name stood for.
    pub fn insert(&mut self, name: String, format: Format<T>)
        ensures
            final(self).lookup(name@) == Some(format),
            forall|other: Seq<char>|
                other != name@ ==> final(self).lookup(other) == old(self).lookup(other),
            old(self).well_formed() ==> final(self).well_formed(),
    {
        let ghost before = self.entries@;
        let ghost spelled = name@;
        match find(&self.entries, &name) {
            Some(i) => {
                let entry = (name, format);
                self.entries[i] = entry;
                proof {
                    let after = self.entries@;
                    lemma_position(before, spelled, 0);
                    assert forall|j: int| 0 <= j < after.len() implies (#[trigger] after[j]).0@ == (
                    #[trigger] before[j]).0@ by {
                        if j != i {
                            assert(after[j] == before[j]);
                        }
                    }
                    assert forall|other: Seq<char>| #[trigger]
                        position(after, other, 0) == position(before, other, 0) by {
                        lemma_position_by_names(after, before, other, 0);
                    }
                    assert forall|other: Seq<char>| other != spelled implies self.lookup(other)
                        == old(self).lookup(other) by {
                        lemma_position(before, other, 0);
                    }
                }
            },
            None => {
                let entry = (name, format);
                self.entries.push(entry);
                proof {
                    let after = self.entries@;
                    assert(after == before.push(entry));
                    assert forall|other: Seq<char>| #[trigger]
                        position(after, other, 0) == (match position(before, other, 0) {
                            Some(i) => Some(i),
                            None => if spelled == other {
                                Some(before.len() as int)
                            } else {
                                None
                            },
                        }) by {
                        lemma_position_push(before, entry, other, 0);
                    }
                    lemma_position(before, spelled, 0);
                    assert forall|other: Seq<char>| other != spelled implies self.lookup(other)
                        == old(self).lookup(other) by {
                        lemma_position(before, other, 0);
                    }
                }
            },
        }
    }

    /// Makes this table a copy of `other`, entry by entry.
    pub fn replace_with(&mut self, other: &Self)
        ensures
            final(self).entries@ == other.entries@,
    {
        let mut entries: Vec<(String, Format<T>)> = Vec::new();
        let mut i: usize = 0;
        while i < other.entries.len()
            invariant
                i <= other.entries.len(),
                entries@ == other.entries@.take(i as int),
            decreases other.entries.len() - i,
        {
            let entry = (other.entries[i].0.clone(), other.entries[i].1);
            entries.push(entry);
            assert(entries@ =~= other.entries@.take(i + 1));
            i += 1;
        }
        assert(other.entries@.take(i as int) =~= other.entries@);
        self.entries = entries;
    }

    /// The format that a field declaring `name` is checked with.
    pub fn resolve(&self, name: &Option<String>) -> (format: Format<T>)
        ensures
            format == self.spec_resolve(*name),
    {
        match name {
            None => Format::none(),
            Some(n) => match self.get(n) {
                Some(f) => f,
                None => Format::unknown(),
            },
        }
    }

    /// The format registered under `name`, if there is one.
    pub fn get(&self, name: &String) -> (found: Option<Format<T>>)
        ensures
            found == self.lookup(name@),
    {
        match find(&self.entries, name) {
            Some(i) => Some(self.entries[i].1),
            None => None,
        }
    }
}

/// The two tables that schemas are compiled against: one of integer formats
/// and one of string formats.
pub struct Registry {
    pub integer: Formats<i64>,
    pub string: Formats<String>,
}

/// A name that the table does not hold stands for a format that no value
/// has, and that is called `unknown`.
pub proof fn lemma_unregistered<T: View + 'static>(formats: Formats<T>, name: String)
    requires
        formats.lookup(name@) is None,
    ensures
        forall|value: T::V| !formats.spec_resolve(Some(name)).check.accepts(value),
        formats.spec_resolve(Some(name)).check.spec_display() == "unknown"@,
{
}

/// A field that declares no format is checked with one that every value
/// has.
pub proof fn lemma_undeclared<T: View + 'static>(formats: Formats<T>)
    ensures
        forall|value: T::V| formats.spec_resolve(None).check.accepts(value),
{
}

} // verus!
