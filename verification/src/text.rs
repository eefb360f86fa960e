//! Comparing text.

use vstd::prelude::*;
use vstd::std_specs::iter::IteratorSpec;

verus! {

broadcast use vstd::string::group_string_axioms;

/// The code of a character, that of the lower case letter for an upper case
/// letter of ASCII.
pub open spec fn lower_case(c: char) -> u32 {
    if 'A' <= c <= 'Z' {
        (c as u32 + 32) as u32
    } else {
        c as u32
    }
}

/// A text with the upper case letters of ASCII as lower case ones, by the
/// codes of its characters.
pub open spec fn without_case(text: Seq<char>) -> Seq<u32> {
    text.map_values(|c: char| lower_case(c))
}

/// The code of a character, that of the lower case letter for an upper case
/// letter of ASCII.
fn to_lower_case(c: char) -> (r: u32)
    ensures
        r == lower_case(c),
{
    if 'A' <= c && c <= 'Z' {
        c as u32 + 32
    } else {
        c as u32
    }
}

/// Whether two texts are the same.
pub fn is_same(a: &str, b: &str) -> (r: bool)
    ensures
        r == (a@ == b@),
{
    let n: usize = a.unicode_len();
    if n != b.unicode_len() {
        return false;
    }
    let mut left = a.chars();
    let mut right = b.chars();
    let mut i: usize = 0;
    while i < n
        invariant
            i <= n,
            n == a@.len(),
            n == b@.len(),
            left.remaining() == a@.skip(i as int),
            right.remaining() == b@.skip(i as int),
            forall|j: int| 0 <= j < i ==> a@[j] == b@[j],
        decreases n - i,
    {
        match (left.next(), right.next()) {
            (Some(x), Some(y)) => {
                if x != y {
                    return false;
                }
            },
            _ => {},
        }
        i += 1;
    }
    assert(a@ =~= b@);
    true
}

/// Whether two texts are the same but for the case of ASCII letters.
pub fn is_same_ignoring_case(a: &str, b: &str) -> (r: bool)
    ensures
        r == (without_case(a@) == without_case(b@)),
{
    let n: usize = a.unicode_len();
    if n != b.unicode_len() {
        assert(without_case(a@).len() != without_case(b@).len());
        return false;
    }
    let mut left = a.chars();
    let mut right = b.chars();
    let mut i: usize = 0;
    while i < n
        invariant
            i <= n,
            n == a@.len(),
            n == b@.len(),
            left.remaining() == a@.skip(i as int),
            right.remaining() == b@.skip(i as int),
            forall|j: int| 0 <= j < i ==> lower_case(a@[j]) == lower_case(b@[j]),
        decreases n - i,
    {
        match (left.next(), right.next()) {
            (Some(x), Some(y)) => {
                if to_lower_case(x) != to_lower_case(y) {
                    assert(without_case(a@)[i as int] != without_case(b@)[i as int]);
                    return false;
                }
            },
            _ => {},
        }
        i += 1;
    }
    assert(without_case(a@) =~= without_case(b@));
    true
}

/// Whether two characters are the same, or the same letter of ASCII in either
/// case.
pub open spec fn same_letter(a: char, b: char) -> bool {
    ||| a == b
    ||| 'A' <= a <= 'Z' && b as int == a as int + 32
    ||| 'A' <= b <= 'Z' && a as int == b as int + 32
}

/// Two texts are the same but for the case of ASCII letters just if they are
/// equally long and hold the same letter at every place.
pub proof fn law_case_is_all_that_is_ignored(a: Seq<char>, b: Seq<char>)
    ensures
        without_case(a) == without_case(b) <==> {
            &&& a.len() == b.len()
            &&& forall|i: int| 0 <= i < a.len() ==> same_letter(#[trigger] a[i], b[i])
        },
{
    assert(without_case(a).len() == a.len());
    assert(without_case(b).len() == b.len());
    if without_case(a) == without_case(b) {
        assert forall|i: int| 0 <= i < a.len() implies same_letter(#[trigger] a[i], b[i]) by {
            assert(without_case(a)[i] == lower_case(a[i]));
            assert(without_case(b)[i] == lower_case(b[i]));
            lemma_same_letter(a[i], b[i]);
        }
    }
    if a.len() == b.len() && forall|i: int|
        0 <= i < a.len() ==> same_letter(#[trigger] a[i], b[i]) {
        assert forall|i: int| 0 <= i < a.len() implies without_case(a)[i] == without_case(
            b,
        )[i] by {
            lemma_same_letter(a[i], b[i]);
        }
        assert(without_case(a) =~= without_case(b));
    }
}

proof fn lemma_same_letter(a: char, b: char)
    ensures
        lower_case(a) == lower_case(b) <==> same_letter(a, b),
{
}

} // verus!
