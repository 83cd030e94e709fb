//! Names as texts.

use vstd::prelude::*;
use vstd::string::*;

verus! {

/// The texts of a list of names.
pub open spec fn names_of(names: Seq<String>) -> Seq<Seq<char>> {
    names.map_values(|n: String| n@)
}

/// Whether `name` ends with `suffix`.
pub open spec fn ends_with(name: Seq<char>, suffix: Seq<char>) -> bool {
    suffix.len() <= name.len() && name.subrange(name.len() - suffix.len(), name.len() as int)
        == suffix
}

/// Tells whether `name` ends with `suffix`.
pub fn has_suffix(name: &str, suffix: &str) -> (out: bool)
    ensures
        out == ends_with(name@, suffix@),
{
    let n: usize = name.unicode_len();
    let m: usize = suffix.unicode_len();
    if m > n {
        return false;
    }
    let start: usize = n - m;
    let mut i: usize = 0;
    while i < m
        invariant
            n == name@.len(),
            m == suffix@.len(),
            start == n - m,
            i <= m,
            forall|j: int| 0 <= j < i ==> name@[start + j] == suffix@[j],
        decreases m - i,
    {
        if name.get_char(start + i) != suffix.get_char(i) {
            assert(name@.subrange(start as int, n as int)[i as int] != suffix@[i as int]);
            return false;
        }
        i += 1;
    }
    assert(name@.subrange(start as int, n as int) =~= suffix@);
    true
}

} // verus!
