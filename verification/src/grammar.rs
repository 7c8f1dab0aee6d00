//! The canonical string grammar shared by every identifier: components that
//! exclude the reserved separator characters, and compound forms written as
//! `left<sep>right`.
use vstd::prelude::*;

use crate::errors::ParseError;

verus! {

/// The characters that join identifier components in canonical strings:
/// `#` joins an asset name with its domain, `@` joins an account signatory
/// with its domain. Neither may occur inside a component.
pub open spec fn reserved_char(c: char) -> bool {
    c == '#' || c == '@'
}

/// A valid identifier component: non-empty, with no reserved character.
pub open spec fn valid_name(s: Seq<char>) -> bool {
    &&& s.len() > 0
    &&& forall|i: int| 0 <= i < s.len() ==> !reserved_char(#[trigger] s[i])
}

/// The grammar rule a bad component broke: emptiness, else a reserved
/// character.
pub open spec fn component_error(s: Seq<char>) -> ParseError {
    if s.len() == 0 {
        ParseError::EmptyComponent
    } else {
        ParseError::ReservedCharacter
    }
}

/// Position of the first occurrence of `c` in `s`, if any.
pub open spec fn find_first(s: Seq<char>, c: char) -> Option<int>
    decreases s.len(),
{
    if s.len() == 0 {
        None
    } else if s[0] == c {
        Some(0int)
    } else {
        match find_first(s.skip(1), c) {
            Some(i) => Some(i + 1),
            None => None,
        }
    }
}

/// `find_first` returns the least position holding `c`, or reports that no
/// position does.
pub proof fn lemma_find_first(s: Seq<char>, c: char)
    ensures
        match find_first(s, c) {
            Some(i) => 0 <= i < s.len() && s[i] == c && (forall|j: int|
                0 <= j < i ==> s[j] != c),
            None => forall|j: int| 0 <= j < s.len() ==> s[j] != c,
        },
    decreases s.len(),
{
    if s.len() == 0 {
    } else if s[0] == c {
    } else {
        lemma_find_first(s.skip(1), c);
        assert(forall|j: int| 0 <= j < s.skip(1).len() ==> s.skip(1)[j] == s[j + 1]);
        match find_first(s.skip(1), c) {
            Some(i) => {
                assert(s[i + 1] == s.skip(1)[i]);
                assert forall|j: int| 0 <= j < i + 1 implies s[j] != c by {
                    if j > 0 {
                        assert(s[j] == s.skip(1)[j - 1]);
                    }
                }
            },
            None => {
                assert forall|j: int| 0 <= j < s.len() implies s[j] != c by {
                    if j > 0 {
                        assert(s[j] == s.skip(1)[j - 1]);
                    }
                }
            },
        }
    }
}

/// If `c` stands at `i` and nowhere earlier, `find_first` returns `i`.
pub proof fn lemma_find_first_is_first(s: Seq<char>, c: char, i: int)
    requires
        0 <= i < s.len(),
        s[i] == c,
        forall|j: int| 0 <= j < i ==> s[j] != c,
    ensures
        find_first(s, c) == Some(i),
    decreases s.len(),
{
    if i == 0 {
    } else {
        assert(s[0] != c);
        assert(s.skip(1)[i - 1] == s[i]);
        assert forall|j: int| 0 <= j < i - 1 implies s.skip(1)[j] != c by {
            assert(s.skip(1)[j] == s[j + 1]);
        }
        lemma_find_first_is_first(s.skip(1), c, i - 1);
    }
}

/// Parse of a compound identifier string: split at the first `sep`, then
/// hold both components to the component grammar, left before right.
pub open spec fn spec_parse_pair(s: Seq<char>, sep: char) -> Result<
    (Seq<char>, Seq<char>),
    ParseError,
> {
    match find_first(s, sep) {
        None => Err(ParseError::MissingSeparator),
        Some(i) => {
            let left = s.subrange(0, i);
            let right = s.subrange(i + 1, s.len() as int);
            if !valid_name(left) {
                Err(component_error(left))
            } else if !valid_name(right) {
                Err(component_error(right))
            } else {
                Ok((left, right))
            }
        },
    }
}

/// Canonical string of a compound identifier.
pub open spec fn spec_format_pair(left: Seq<char>, sep: char, right: Seq<char>) -> Seq<char> {
    left + seq![sep] + right
}

/// A successful parse recovers exactly the formatted string: parsing and
/// formatting are mutually inverse on valid data.
pub proof fn lemma_parse_pair_inverts_format(left: Seq<char>, sep: char, right: Seq<char>)
    requires
        reserved_char(sep),
        valid_name(left),
        valid_name(right),
    ensures
        spec_parse_pair(spec_format_pair(left, sep, right), sep) == Ok::<_, ParseError>(
            (left, right),
        ),
{
    let s = spec_format_pair(left, sep, right);
    assert(s.len() == left.len() + 1 + right.len());
    assert(s[left.len() as int] == sep);
    assert forall|j: int| 0 <= j < left.len() implies s[j] != sep by {
        assert(s[j] == left[j]);
    }
    lemma_find_first_is_first(s, sep, left.len() as int);
    assert(s.subrange(0, left.len() as int) =~= left);
    assert(s.subrange(left.len() as int + 1, s.len() as int) =~= right);
}

/// A string that parses is exactly the canonical form of what it parsed to.
pub proof fn lemma_parse_pair_reconstructs(s: Seq<char>, sep: char)
    ensures
        spec_parse_pair(s, sep) matches Ok(p) ==> spec_format_pair(p.0, sep, p.1) == s,
{
    if spec_parse_pair(s, sep) is Ok {
        lemma_find_first(s, sep);
        let i = find_first(s, sep)->Some_0;
        let left = s.subrange(0, i);
        let right = s.subrange(i + 1, s.len() as int);
        assert(spec_format_pair(left, sep, right) =~= s);
    }
}

/// Scan for the first occurrence of `sep` in `s`.
pub(crate) fn find_sep(s: &str, sep: char) -> (r: Option<usize>)
    ensures
        match r {
            Some(i) => find_first(s@, sep) == Some(i as int),
            None => find_first(s@, sep) is None,
        },
{
    let len: usize = s.unicode_len();
    let mut i: usize = 0;
    while i < len
        invariant
            i <= len,
            len == s@.len(),
            forall|j: int| 0 <= j < i ==> s@[j] != sep,
        decreases len - i,
    {
        if s.get_char(i) == sep {
            proof {
                lemma_find_first_is_first(s@, sep, i as int);
            }
            return Some(i);
        }
        i += 1;
    }
    proof {
        lemma_find_first(s@, sep);
        if find_first(s@, sep) is Some {
            let k = find_first(s@, sep)->Some_0;
            assert(s@[k] != sep);
            assert(false);
        }
    }
    None
}

/// Hold one component to the grammar: non-empty, no reserved character.
pub(crate) fn check_component(s: &str) -> (r: Result<(), ParseError>)
    ensures
        valid_name(s@) ==> r is Ok,
        !valid_name(s@) ==> r == Err::<(), ParseError>(component_error(s@)),
{
    let len: usize = s.unicode_len();
    if len == 0 {
        return Err(ParseError::EmptyComponent);
    }
    let mut i: usize = 0;
    while i < len
        invariant
            i <= len,
            len == s@.len(),
            forall|j: int| 0 <= j < i ==> !reserved_char(#[trigger] s@[j]),
        decreases len - i,
    {
        let c = s.get_char(i);
        if c == '#' || c == '@' {
            return Err(ParseError::ReservedCharacter);
        }
        i += 1;
    }
    Ok(())
}

/// Split a compound identifier string at its first `sep` and validate both
/// components, returning them as owned strings.
pub(crate) fn parse_pair(s: &str, sep: char) -> (r: Result<(String, String), ParseError>)
    ensures
        match spec_parse_pair(s@, sep) {
            Ok(p) => r matches Ok(q) && q.0@ == p.0 && q.1@ == p.1,
            Err(e) => r == Err::<(String, String), ParseError>(e),
        },
{
    let len: usize = s.unicode_len();
    match find_sep(s, sep) {
        None => Err(ParseError::MissingSeparator),
        Some(i) => {
            proof {
                lemma_find_first(s@, sep);
            }
            let left = s.substring_char(0, i);
            let right = s.substring_char(i + 1, len);
            match check_component(left) {
                Err(e) => Err(e),
                Ok(()) => match check_component(right) {
                    Err(e) => Err(e),
                    Ok(()) => Ok((String::from_str(left), String::from_str(right))),
                },
            }
        },
    }
}

} // verus!
