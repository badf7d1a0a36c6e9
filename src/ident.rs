//! Identifier normalisation: composite identifiers carry a version suffix
//! after a separator, which is cut off so that they can be matched against
//! schedule data keyed by bare identifiers.

use vstd::prelude::*;
use vstd::string::StrSliceExecFns;

verus! {

/// The character that separates an identifier from its version suffix.
pub const VERSION_SEPARATOR: char = '-';

/// The index of the first occurrence of `c` in `s`, if any.
pub open spec fn first_index_of(s: Seq<char>, c: char) -> Option<int>
    decreases s.len(),
{
    if s.len() == 0 {
        None
    } else if s[0] == c {
        Some(0)
    } else {
        match first_index_of(s.drop_first(), c) {
            Some(i) => Some(i + 1),
            None => None,
        }
    }
}

/// The characters of `s` before the first `c`; absent when `s` holds no `c`.
pub open spec fn prefix_before(s: Seq<char>, c: char) -> Option<Seq<char>> {
    match first_index_of(s, c) {
        Some(i) => Some(s.take(i)),
        None => None,
    }
}

proof fn lemma_first_index_of(s: Seq<char>, c: char)
    ensures
        match first_index_of(s, c) {
            Some(i) => 0 <= i < s.len() && s[i] == c && forall|j: int| 0 <= j < i ==> s[j] != c,
            None => forall|j: int| 0 <= j < s.len() ==> s[j] != c,
        },
    decreases s.len(),
{
    if s.len() > 0 {
        lemma_first_index_of(s.drop_first(), c);
        if s[0] != c {
            match first_index_of(s.drop_first(), c) {
                Some(i) => {
                    assert forall|j: int| 0 <= j < i + 1 implies s[j] != c by {
                        if j > 0 {
                            assert(s[j] == s.drop_first()[j - 1]);
                        }
                    }
                },
                None => {
                    assert forall|j: int| 0 <= j < s.len() implies s[j] != c by {
                        if j > 0 {
                            assert(s[j] == s.drop_first()[j - 1]);
                        }
                    }
                },
            }
        }
    }
}

proof fn lemma_first_index_unique(s: Seq<char>, c: char, i: int)
    requires
        0 <= i < s.len(),
        s[i] == c,
        forall|j: int| 0 <= j < i ==> s[j] != c,
    ensures
        first_index_of(s, c) == Some(i),
{
    lemma_first_index_of(s, c);
    match first_index_of(s, c) {
        Some(k) => {
            if k < i {
                assert(s[k] != c);
            } else if k > i {
                assert(s[i] != c);
            }
        },
        None => {
            assert(s[i] != c);
        },
    }
}

/// The part of `s` before the first occurrence of `c`, or `None` when `c`
/// does not occur in `s`. Works on Unicode scalar values, never on bytes.
pub fn substr_to_char(s: &str, c: char) -> (r: Option<String>)
    ensures
        match r {
            Some(p) => prefix_before(s@, c) == Some(p@),
            None => prefix_before(s@, c) is None,
        },
{
    let n = s.unicode_len();
    let mut i: usize = 0;
    while i < n
        invariant
            n == s@.len(),
            0 <= i <= n,
            forall|j: int| 0 <= j < i ==> s@[j] != c,
        decreases n - i,
    {
        if s.get_char(i) == c {
            proof {
                lemma_first_index_unique(s@, c, i as int);
            }
            let head = s.substring_char(0, i);
            return Some(head.to_string());
        }
        i = i + 1;
    }
    proof {
        lemma_first_index_of(s@, c);
        if first_index_of(s@, c) is Some {
            let k = first_index_of(s@, c)->Some_0;
            assert(s@[k] != c);
        }
    }
    None
}

/// An identifier with its version suffix cut off (see [`substr_to_char`]).
pub fn strip_version(id: &String) -> (r: Option<String>)
    ensures
        match r {
            Some(p) => prefix_before(id@, VERSION_SEPARATOR) == Some(p@),
            None => prefix_before(id@, VERSION_SEPARATOR) is None,
        },
{
    substr_to_char(id.as_str(), VERSION_SEPARATOR)
}

} // verus!
