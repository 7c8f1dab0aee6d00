//! Lexicographic ordering of character sequences, by code point: the basis
//! for the identifiers' total order, usable for map keys.
use vstd::prelude::*;

verus! {

/// Outcome of comparing two values in the identifiers' total order.
#[derive(Clone, Copy, Debug, PartialEq, Eq, Structural, Hash)]
pub enum Comparison {
    Less,
    Equal,
    Greater,
}

/// Lexicographic order on character sequences: a proper prefix comes first,
/// otherwise the first differing code point decides.
pub open spec fn cmp_chars(a: Seq<char>, b: Seq<char>) -> Comparison
    decreases a.len(),
{
    if a.len() == 0 && b.len() == 0 {
        Comparison::Equal
    } else if a.len() == 0 {
        Comparison::Less
    } else if b.len() == 0 {
        Comparison::Greater
    } else if (a[0] as u32) < (b[0] as u32) {
        Comparison::Less
    } else if (a[0] as u32) > (b[0] as u32) {
        Comparison::Greater
    } else {
        cmp_chars(a.skip(1), b.skip(1))
    }
}

/// The order reports `Equal` exactly on equal sequences.
pub proof fn lemma_cmp_chars_equal(a: Seq<char>, b: Seq<char>)
    ensures
        cmp_chars(a, b) == Comparison::Equal <==> a == b,
    decreases a.len(),
{
    if a.len() == 0 && b.len() == 0 {
        assert(a =~= b);
    } else if a.len() == 0 || b.len() == 0 {
    } else if a[0] as u32 == b[0] as u32 {
        lemma_cmp_chars_equal(a.skip(1), b.skip(1));
        if cmp_chars(a, b) == Comparison::Equal {
            assert(a.skip(1) == b.skip(1));
            vstd::utf8::char_u32_cast(a[0], a[0] as u32);
            vstd::utf8::char_u32_cast(b[0], b[0] as u32);
            assert(a =~= b) by {
                assert forall|j: int| 0 <= j < a.len() implies a[j] == b[j] by {
                    if j > 0 {
                        assert(a[j] == a.skip(1)[j - 1]);
                        assert(b[j] == b.skip(1)[j - 1]);
                    }
                }
            }
        }
        if a == b {
            assert(a.skip(1) =~= b.skip(1));
        }
    } else {
    }
}

/// Swapping the arguments swaps `Less` and `Greater`.
pub proof fn lemma_cmp_chars_flip(a: Seq<char>, b: Seq<char>)
    ensures
        cmp_chars(a, b) == Comparison::Less <==> cmp_chars(b, a) == Comparison::Greater,
    decreases a.len(),
{
    if a.len() > 0 && b.len() > 0 && a[0] as u32 == b[0] as u32 {
        lemma_cmp_chars_flip(a.skip(1), b.skip(1));
    }
}

/// The order is transitive in its strict part.
pub proof fn lemma_cmp_chars_transitive(a: Seq<char>, b: Seq<char>, c: Seq<char>)
    requires
        cmp_chars(a, b) == Comparison::Less,
        cmp_chars(b, c) == Comparison::Less,
    ensures
        cmp_chars(a, c) == Comparison::Less,
    decreases a.len(),
{
    if a.len() == 0 {
    } else if a[0] as u32 == b[0] as u32 && b[0] as u32 == c[0] as u32 {
        lemma_cmp_chars_transitive(a.skip(1), b.skip(1), c.skip(1));
    }
}

/// Advancing past an equal code point leaves the comparison unchanged.
proof fn lemma_cmp_chars_skip_step(a: Seq<char>, b: Seq<char>, i: int)
    requires
        0 <= i < a.len(),
        0 <= i < b.len(),
        a[i] as u32 == b[i] as u32,
    ensures
        cmp_chars(a.skip(i), b.skip(i)) == cmp_chars(a.skip(i + 1), b.skip(i + 1)),
{
    assert(a.skip(i)[0] == a[i]);
    assert(b.skip(i)[0] == b[i]);
    assert(a.skip(i).skip(1) =~= a.skip(i + 1));
    assert(b.skip(i).skip(1) =~= b.skip(i + 1));
}

/// Compare two strings in the lexicographic order of their characters.
pub fn str_cmp(a: &str, b: &str) -> (r: Comparison)
    ensures
        r == cmp_chars(a@, b@),
{
    let la: usize = a.unicode_len();
    let lb: usize = b.unicode_len();
    let mut i: usize = 0;
    proof {
        assert(a@.skip(0) =~= a@);
        assert(b@.skip(0) =~= b@);
    }
    while i < la && i < lb
        invariant
            i <= la,
            i <= lb,
            la == a@.len(),
            lb == b@.len(),
            cmp_chars(a@, b@) == cmp_chars(a@.skip(i as int), b@.skip(i as int)),
        decreases la - i,
    {
        let x = a.get_char(i) as u32;
        let y = b.get_char(i) as u32;
        proof {
            assert(a@.skip(i as int)[0] == a@[i as int]);
            assert(b@.skip(i as int)[0] == b@[i as int]);
        }
        if x < y {
            return Comparison::Less;
        }
        if x > y {
            return Comparison::Greater;
        }
        proof {
            lemma_cmp_chars_skip_step(a@, b@, i as int);
        }
        i += 1;
    }
    if i < lb {
        Comparison::Less
    } else if i < la {
        Comparison::Greater
    } else {
        Comparison::Equal
    }
}

/// Decide string equality through the lexicographic order.
pub fn str_eq(a: &str, b: &str) -> (r: bool)
    ensures
        r == (a@ == b@),
{
    proof {
        lemma_cmp_chars_equal(a@, b@);
    }
    match str_cmp(a, b) {
        Comparison::Equal => true,
        _ => false,
    }
}

} // verus!
