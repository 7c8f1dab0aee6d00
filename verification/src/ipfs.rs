//! Content-addressed path strings, used for a definition's logo. A path is
//! validated on construction and on every update; an invalid string is
//! rejected before it can be stored.
use vstd::prelude::*;

use crate::errors::ParseError;

verus! {

/// Two slashes in a row at position `i` — an empty path segment.
pub open spec fn slash_pair(s: Seq<char>, i: int) -> bool {
    s[i] == '/' && s[i - 1] == '/'
}

/// The head of a rooted path: `/ipfs/`, `/ipld/` or `/ipns/`, with room for
/// at least one character after the second slash.
pub open spec fn rooted_path_head(s: Seq<char>) -> bool {
    &&& s.len() >= 7
    &&& s[5] == '/'
    &&& s[1] == 'i'
    &&& s[2] == 'p'
    &&& ((s[3] == 'f' && s[4] == 's') || (s[3] == 'l' && s[4] == 'd') || (s[3] == 'n' && s[4]
        == 's'))
}

/// The content-addressed path grammar:
/// - no empty segment anywhere (no `//`, no trailing `/`);
/// - a rooted path starts with one of the three root markers and carries at
///   least one segment after it;
/// - a bare path starts with a content identifier of at least two
///   characters.
pub open spec fn valid_ipfs_path(s: Seq<char>) -> bool {
    &&& s.len() > 0
    &&& s[s.len() - 1] != '/'
    &&& (forall|i: int| 1 <= i < s.len() ==> !#[trigger] slash_pair(s, i))
    &&& if s[0] == '/' {
        rooted_path_head(s)
    } else {
        s.len() >= 2 && s[1] != '/'
    }
}

/// Decide the path grammar on a raw string.
fn check_ipfs_path(s: &str) -> (r: bool)
    ensures
        r == valid_ipfs_path(s@),
{
    let len: usize = s.unicode_len();
    if len == 0 {
        return false;
    }
    if s.get_char(len - 1) == '/' {
        return false;
    }
    let mut i: usize = 1;
    while i < len
        invariant
            1 <= i,
            i <= len,
            len == s@.len(),
            forall|j: int| 1 <= j < i ==> !#[trigger] slash_pair(s@, j),
        decreases len - i,
    {
        if s.get_char(i) == '/' && s.get_char(i - 1) == '/' {
            proof {
                assert(slash_pair(s@, i as int));
            }
            return false;
        }
        i += 1;
    }
    if s.get_char(0) == '/' {
        if len < 7 {
            return false;
        }
        if s.get_char(5) != '/' || s.get_char(1) != 'i' || s.get_char(2) != 'p' {
            return false;
        }
        let c3 = s.get_char(3);
        let c4 = s.get_char(4);
        (c3 == 'f' && c4 == 's') || (c3 == 'l' && c4 == 'd') || (c3 == 'n' && c4 == 's')
    } else {
        if len < 2 {
            return false;
        }
        s.get_char(1) != '/'
    }
}

/// A syntactically valid content-addressed path. Values exist only through
/// the validating constructor, so every stored logo satisfies the grammar.
#[derive(Debug, Hash)]
pub struct IpfsPath {
    raw: String,
}

impl View for IpfsPath {
    type V = Seq<char>;

    closed spec fn view(&self) -> Seq<char> {
        self.raw@
    }
}

impl IpfsPath {
    #[verifier::type_invariant]
    spec fn wf(self) -> bool {
        valid_ipfs_path(self@)
    }

    /// Hold a raw string to the path grammar and store it unchanged.
    pub fn parse(s: &str) -> (r: Result<IpfsPath, ParseError>)
        ensures
            valid_ipfs_path(s@) ==> (r matches Ok(p) && p@ == s@),
            !valid_ipfs_path(s@) ==> r == Err::<IpfsPath, ParseError>(ParseError::InvalidIpfsPath),
    {
        if check_ipfs_path(s) {
            Ok(IpfsPath { raw: String::from_str(s) })
        } else {
            Err(ParseError::InvalidIpfsPath)
        }
    }

    /// The path as text; it always satisfies the grammar.
    pub fn as_str(&self) -> (r: &str)
        ensures
            r@ == self@,
            valid_ipfs_path(self@),
    {
        proof {
            use_type_invariant(self);
        }
        self.raw.as_str()
    }
}

impl Clone for IpfsPath {
    /// A clone carries the same text, so also the path grammar.
    fn clone(&self) -> (r: IpfsPath)
        ensures
            r@ == self@,
    {
        proof {
            use_type_invariant(self);
        }
        IpfsPath { raw: self.raw.clone() }
    }
}

impl PartialEq for IpfsPath {
    fn eq(&self, other: &IpfsPath) -> bool {
        crate::order::str_eq(self.raw.as_str(), other.raw.as_str())
    }
}

impl vstd::std_specs::cmp::PartialEqSpecImpl for IpfsPath {
    open spec fn obeys_eq_spec() -> bool {
        true
    }

    open spec fn eq_spec(&self, other: &IpfsPath) -> bool {
        self@ == other@
    }
}

} // verus!
