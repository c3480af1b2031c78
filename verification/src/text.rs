//! Small verified helpers on strings, stated over their character views.
use vstd::prelude::*;

verus! {

/// Whether the text begins with an underscore, the mark of a private function.
pub open spec fn spec_is_private_name(name: Seq<char>) -> bool {
    name.len() > 0 && name[0] == '_'
}

/// Compares two strings character by character.
pub fn str_eq(a: &str, b: &str) -> (res: bool)
    ensures
        res == (a@ == b@),
{
    let n = a.unicode_len();
    let m = b.unicode_len();
    if n != m {
        return false;
    }
    let mut i: usize = 0;
    while i < n
        invariant
            n == a@.len(),
            m == b@.len(),
            n == m,
            i <= n,
            forall|j: int| 0 <= j < i ==> a@[j] == b@[j],
        decreases n - i,
    {
        if a.get_char(i) != b.get_char(i) {
            return false;
        }
        i = i + 1;
    }
    assert(a@ =~= b@);
    true
}

/// Whether the name begins with an underscore.
pub fn is_private_name(name: &str) -> (res: bool)
    ensures
        res == spec_is_private_name(name@),
{
    let n = name.unicode_len();
    n > 0 && name.get_char(0) == '_'
}

/// Whether the text holds the character.
pub fn contains_char(s: &str, c: char) -> (res: bool)
    ensures
        res == s@.contains(c),
{
    let n = s.unicode_len();
    let mut i: usize = 0;
    while i < n
        invariant
            n == s@.len(),
            i <= n,
            forall|j: int| 0 <= j < i ==> s@[j] != c,
        decreases n - i,
    {
        if s.get_char(i) == c {
            assert(s@[i as int] == c);
            return true;
        }
        i = i + 1;
    }
    false
}

} // verus!
