//! Lists of named entries, in which a name stands for the first entry that
//! carries it.
use vstd::prelude::*;

verus! {

/// The position of the first of `entries` named `name`, searching from `from`.
pub open spec fn position<V>(entries: Seq<(String, V)>, name: Seq<char>, from: int) -> Option<int>
    decreases entries.len() - from,
{
    if from < 0 || from >= entries.len() {
        None
    } else if entries[from].0@ == name {
        Some(from)
    } else {
        position(entries, name, from + 1)
    }
}

/// A position that `position` reports is the first one that carries the name.
pub proof fn lemma_position<V>(entries: Seq<(String, V)>, name: Seq<char>, from: int)
    requires
        0 <= from,
    ensures
        match position(entries, name, from) {
            Some(i) => from <= i < entries.len() && entries[i].0@ == name && forall|j: int|
                from <= j < i ==> (#[trigger] entries[j]).0@ != name,
            None => forall|j: int| from <= j < entries.len() ==> (#[trigger] entries[j]).0@ != name,
        },
    decreases entries.len() - from,
{
    if from < entries.len() && entries[from].0@ != name {
        lemma_position(entries, name, from + 1);
    }
}

/// Tables that agree on the names, place by place, find a name at the same place.
pub proof fn lemma_position_by_names<V, W>(
    a: Seq<(String, V)>,
    b: Seq<(String, W)>,
    name: Seq<char>,
    from: int,
)
    requires
        0 <= from,
        a.len() == b.len(),
        forall|j: int| 0 <= j < a.len() ==> (#[trigger] a[j]).0@ == (#[trigger] b[j]).0@,
    ensures
        position(a, name, from) == position(b, name, from),
    decreases a.len() - from,
{
    if from < a.len() {
        assert(a[from].0@ == b[from].0@);
        if a[from].0@ != name {
            lemma_position_by_names(a, b, name, from + 1);
        }
    }
}

/// One more entry at the end is found only under a name that no earlier entry
/// carries.
pub proof fn lemma_position_push<V>(a: Seq<(String, V)>, last: (String, V), name: Seq<char>, from: int)
    requires
        0 <= from <= a.len(),
    ensures
        position(a.push(last), name, from) == match position(a, name, from) {
            Some(i) => Some(i),
            None => if last.0@ == name {
                Some(a.len() as int)
            } else {
                None
            },
        },
    decreases a.len() - from,
{
    let b = a.push(last);
    if from < a.len() {
        assert(b[from] == a[from]);
        if a[from].0@ != name {
            lemma_position_push(a, last, name, from + 1);
        }
    } else {
        assert(b[from] == last);
        assert(position(b, name, from + 1) == None::<int>);
    }
}

/// No two of `entries` carry the same name.
pub open spec fn distinct_names<V>(entries: Seq<(String, V)>) -> bool {
    forall|i: int, j: int|
        0 <= i < j < entries.len() ==> (#[trigger] entries[i]).0@ != (#[trigger] entries[j]).0@
}

/// Looks for the first of `entries` named `name`.
pub fn find<V>(entries: &Vec<(String, V)>, name: &String) -> (found: Option<usize>)
    ensures
        match found {
            Some(i) => position(entries@, name@, 0) == Some(i as int) && i < entries@.len(),
            None => position(entries@, name@, 0) is None,
        },
{
    let mut i: usize = 0;
    while i < entries.len()
        invariant
            i <= entries.len(),
            position(entries@, name@, 0) == position(entries@, name@, i as int),
        decreases entries.len() - i,
    {
        if entries[i].0 == *name {
            return Some(i);
        }
        i += 1;
    }
    None
}

/// Among distinct names, a name is found at the one place where it stands.
pub proof fn lemma_position_distinct<V>(entries: Seq<(String, V)>, at: int)
    requires
        distinct_names(entries),
        0 <= at < entries.len(),
    ensures
        position(entries, entries[at].0@, 0) == Some(at),
{
    lemma_position(entries, entries[at].0@, 0);
}

} // verus!
