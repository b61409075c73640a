use vstd::prelude::*;
use vstd::string::*;

verus! {

/// Whether the text `s` is exactly `word`.
pub fn text_is(s: &String, word: &str) -> (r: bool)
    ensures
        r == (s@ == word@),
{
    let a = s.as_str();
    let n = a.unicode_len();
    let m = word.unicode_len();
    if n != m {
        return false;
    }
    let mut i: usize = 0;
    while i < n
        invariant
            n == a@.len(),
            m == word@.len(),
            n == m,
            a@ == s@,
            i <= n,
            forall|j: int| 0 <= j < i ==> a@[j] == word@[j],
        decreases n - i,
    {
        if a.get_char(i) != word.get_char(i) {
            return false;
        }
        i = i + 1;
    }
    assert(s@ =~= word@);
    true
}

} // verus!
