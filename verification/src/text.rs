//! Cutting text at a separator.
use vstd::prelude::*;

verus! {

/// The position of the first `sep` in `s`, if there is one.
pub open spec fn first_index(s: Seq<char>, sep: char) -> Option<int>
    decreases s.len(),
{
    if s.len() == 0 {
        None
    } else if s[0] == sep {
        Some(0)
    } else {
        match first_index(s.skip(1), sep) {
            Some(i) => Some(i + 1),
            None => None,
        }
    }
}

/// The pieces of `s` between the occurrences of `sep`, in order. A text
/// without `sep` is one piece; two adjacent separators enclose an empty piece.
pub open spec fn split(s: Seq<char>, sep: char) -> Seq<Seq<char>>
    decreases s.len(),
    via split_decreases
{
    match first_index(s, sep) {
        None => seq![s],
        Some(i) => seq![s.take(i)] + split(s.skip(i + 1), sep),
    }
}

#[via_fn]
proof fn split_decreases(s: Seq<char>, sep: char) {
    lemma_first_index(s, sep);
}

/// `first_index` finds the first occurrence, and finds none only where there
/// is none.
pub proof fn lemma_first_index(s: Seq<char>, sep: char)
    ensures
        match first_index(s, sep) {
            Some(i) => 0 <= i < s.len() && s[i] == sep && forall|j: int|
                0 <= j < i ==> s[j] != sep,
            None => forall|j: int| 0 <= j < s.len() ==> s[j] != sep,
        },
    decreases s.len(),
{
    if s.len() > 0 && s[0] != sep {
        let rest = s.skip(1);
        lemma_first_index(rest, sep);
        match first_index(rest, sep) {
            Some(i) => {
                assert forall|j: int| 0 <= j < i + 1 implies s[j] != sep by {
                    if j > 0 {
                        assert(rest[j - 1] == s[j]);
                    }
                }
            },
            None => {
                assert forall|j: int| 0 <= j < s.len() implies s[j] != sep by {
                    if j > 0 {
                        assert(rest[j - 1] == s[j]);
                    }
                }
            },
        }
    }
}

/// Where the first `sep` at or after `start` stands at `at`, the pieces from
/// `start` on are the text between the two and the pieces after `at`.
pub proof fn lemma_split_at(s: Seq<char>, sep: char, start: int, at: int)
    requires
        0 <= start <= at < s.len(),
        s[at] == sep,
        forall|j: int| start <= j < at ==> s[j] != sep,
    ensures
        split(s.skip(start), sep) == seq![s.subrange(start, at)] + split(s.skip(at + 1), sep),
{
    let tail = s.skip(start);
    lemma_first_index(tail, sep);
    let found = first_index(tail, sep);
    assert(tail[at - start] == sep);
    assert(found == Some(at - start)) by {
        match found {
            Some(i) => {
                assert(tail[i] == s[start + i]);
            },
            None => {},
        }
    }
    assert(tail.take(at - start) =~= s.subrange(start, at));
    assert(tail.skip(at - start + 1) =~= s.skip(at + 1));
}

/// Where no `sep` stands at or after `start`, the rest of the text is one piece.
pub proof fn lemma_split_last(s: Seq<char>, sep: char, start: int)
    requires
        0 <= start <= s.len(),
        forall|j: int| start <= j < s.len() ==> s[j] != sep,
    ensures
        split(s.skip(start), sep) == seq![s.subrange(start, s.len() as int)],
{
    let tail = s.skip(start);
    lemma_first_index(tail, sep);
    match first_index(tail, sep) {
        Some(i) => {
            assert(tail[i] == s[start + i]);
        },
        None => {},
    }
    assert(tail =~= s.subrange(start, s.len() as int));
}

/// The views of the pieces in `parts`.
pub open spec fn views(parts: Seq<&str>) -> Seq<Seq<char>> {
    Seq::new(parts.len(), |i: int| parts[i]@)
}

/// Cuts `s` at every `sep`.
pub fn split_str<'a>(s: &'a str, sep: char) -> (parts: Vec<&'a str>)
    ensures
        views(parts@) == split(s@, sep),
{
    let n = s.unicode_len();
    let mut parts: Vec<&'a str> = Vec::new();
    let mut start: usize = 0;
    let mut i: usize = 0;
    assert(s@.skip(0) =~= s@);
    assert(views(parts@) =~= Seq::<Seq<char>>::empty());
    while i < n
        invariant
            n == s@.len(),
            start <= i <= n,
            forall|j: int| start <= j < i ==> s@[j] != sep,
            split(s@, sep) == views(parts@) + split(s@.skip(start as int), sep),
        decreases n - i,
    {
        if s.get_char(i) == sep {
            let piece = s.substring_char(start, i);
            proof {
                lemma_split_at(s@, sep, start as int, i as int);
                assert(views(parts@.push(piece)) =~= views(parts@) + seq![s@.subrange(start as int, i as int)]);
            }
            parts.push(piece);
            start = i + 1;
        }
        i += 1;
    }
    let piece = s.substring_char(start, n);
    proof {
        lemma_split_last(s@, sep, start as int);
        assert(views(parts@.push(piece)) =~= views(parts@) + seq![s@.subrange(start as int, n as int)]);
    }
    parts.push(piece);
    parts
}

} // verus!
