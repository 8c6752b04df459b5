use vstd::prelude::*;

verus! {

/// Code point of `c` after ASCII case folding: 'A'..='Z' map to their
/// lowercase forms, every other character is left as it is.
pub open spec fn spec_fold_char(c: char) -> int {
    if 65 <= c as u32 <= 90 {
        c as u32 + 32
    } else {
        c as u32 as int
    }
}

/// Two character sequences are equal up to ASCII case.
pub open spec fn spec_eq_fold(s: Seq<char>, t: Seq<char>) -> bool {
    s.len() == t.len() && (forall|i: int|
        0 <= i < s.len() ==> spec_fold_char(s[i]) == spec_fold_char(t[i]))
}

fn fold_char(c: char) -> (r: u32)
    ensures
        r == spec_fold_char(c),
{
    let u = c as u32;
    if 65 <= u && u <= 90 {
        u + 32
    } else {
        u
    }
}

/// ASCII-case-insensitive string comparison.
pub fn eq_fold(s: &str, t: &str) -> (r: bool)
    ensures
        r == spec_eq_fold(s@, t@),
{
    let ns = s.unicode_len();
    let nt = t.unicode_len();
    if ns != nt {
        return false;
    }
    let mut i: usize = 0;
    while i < ns
        invariant
            i <= ns,
            ns == s@.len(),
            ns == t@.len(),
            forall|j: int| 0 <= j < i ==> spec_fold_char(s@[j]) == spec_fold_char(t@[j]),
        decreases ns - i,
    {
        let a = fold_char(s.get_char(i));
        let b = fold_char(t.get_char(i));
        if a != b {
            return false;
        }
        i += 1;
    }
    true
}

/// Exact string comparison, stated over the views.
pub fn chars_equal(s: &str, t: &str) -> (r: bool)
    ensures
        r == (s@ == t@),
{
    let ns = s.unicode_len();
    let nt = t.unicode_len();
    if ns != nt {
        return false;
    }
    let mut i: usize = 0;
    while i < ns
        invariant
            i <= ns,
            ns == s@.len(),
            ns == t@.len(),
            forall|j: int| 0 <= j < i ==> s@[j] == t@[j],
        decreases ns - i,
    {
        if s.get_char(i) != t.get_char(i) {
            return false;
        }
        i += 1;
    }
    proof {
        assert(s@ =~= t@);
    }
    true
}

} // verus!
