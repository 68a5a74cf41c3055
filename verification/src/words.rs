//! Splitting the first word off a string.

use vstd::prelude::*;
use vstd::string::StrSliceExecFns;

verus! {

/// Returns the first word of `s`: the prefix up to but not including the
/// first space, or all of `s` when it holds no space.
pub fn first_word(s: &String) -> (r: &str)
    ensures
        r@.len() <= s@.len(),
        r@ == s@.subrange(0, r@.len() as int),
        forall|j: int| 0 <= j < r@.len() ==> s@[j] != ' ',
        r@.len() < s@.len() ==> s@[r@.len() as int] == ' ',
{
    let n = s.as_str().unicode_len();
    let mut i: usize = 0;
    while i < n
        invariant
            n == s@.len(),
            i <= n,
            forall|j: int| 0 <= j < i ==> s@[j] != ' ',
        decreases n - i,
    {
        if s.as_str().get_char(i) == ' ' {
            return s.as_str().substring_char(0, i);
        }
        i += 1;
    }
    s.as_str().substring_char(0, n)
}

} // verus!
