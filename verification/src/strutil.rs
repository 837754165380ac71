//! Small verified string helpers: equality, character search, and the
//! base name of a path.

use vstd::prelude::*;

verus! {

/// Whether two strings hold the same characters.
pub fn str_eq(a: &str, b: &str) -> (r: bool)
    ensures
        r == (a@ == b@),
{
    let na = a.unicode_len();
    let nb = b.unicode_len();
    if na != nb {
        return false;
    }
    for i in 0..na
        invariant
            na == a@.len(),
            na == b@.len(),
            forall|j: int| 0 <= j < i ==> a@[j] == b@[j],
    {
        if a.get_char(i) != b.get_char(i) {
            return false;
        }
    }
    proof {
        assert(a@ =~= b@);
    }
    true
}

/// The least index of `c` in `s` at or after `from`, or the length of `s`
/// when `c` does not occur there.
pub open spec fn spec_find_from(s: Seq<char>, c: char, from: int) -> int
    recommends
        0 <= from <= s.len(),
    decreases s.len() - from,
{
    if from < 0 || from >= s.len() {
        s.len() as int
    } else if s[from] == c {
        from
    } else {
        spec_find_from(s, c, from + 1)
    }
}

/// The search result lies between its start and the length of `s`, and
/// points at `c` when it is not the length.
pub proof fn lemma_find_from_bounds(s: Seq<char>, c: char, i: int)
    requires
        0 <= i <= s.len(),
    ensures
        i <= spec_find_from(s, c, i) <= s.len(),
        spec_find_from(s, c, i) < s.len() ==> s[spec_find_from(s, c, i)] == c,
    decreases s.len() - i,
{
    if i < s.len() && s[i] != c {
        lemma_find_from_bounds(s, c, i + 1);
    }
}

/// Find the first occurrence of `c` in `s` at or after index `from`.
pub fn find_char_from(s: &str, c: char, from: usize) -> (r: usize)
    requires
        from <= s@.len(),
    ensures
        r == spec_find_from(s@, c, from as int),
        from as int <= r <= s@.len(),
{
    let n = s.unicode_len();
    let mut k = from;
    while k < n
        invariant
            n == s@.len(),
            from <= k <= n,
            spec_find_from(s@, c, from as int) == spec_find_from(s@, c, k as int),
        decreases n - k,
    {
        if s.get_char(k) == c {
            return k;
        }
        k = k + 1;
    }
    n
}

/// The index of the last `/` in `p`, or `-1` when there is none.
pub open spec fn spec_last_slash(p: Seq<char>) -> int
    decreases p.len(),
{
    if p.len() == 0 {
        -1
    } else if p.last() == '/' {
        p.len() - 1
    } else {
        spec_last_slash(p.drop_last())
    }
}

/// What follows the last `/` of `p`; all of `p` when it has no `/`.
pub open spec fn spec_basename(p: Seq<char>) -> Seq<char> {
    p.skip(spec_last_slash(p) + 1)
}

/// The base name of a path: the part after the last slash. For a path
/// that ends in a slash the result is empty.
pub fn basename(p: &str) -> (r: String)
    ensures
        r@ == spec_basename(p@),
{
    let n = p.unicode_len();
    let mut k = n;
    proof {
        assert(p@.take(n as int) =~= p@);
    }
    while k > 0
        invariant
            n == p@.len(),
            k <= n,
            spec_last_slash(p@) == spec_last_slash(p@.take(k as int)),
        decreases k,
    {
        proof {
            let pref = p@.take(k as int);
            assert(pref.last() == p@[k - 1]);
            assert(pref.drop_last() =~= p@.take(k - 1));
        }
        if p.get_char(k - 1) == '/' {
            let tail = p.substring_char(k, n);
            proof {
                assert(spec_last_slash(p@) == k - 1);
                assert(tail@ =~= spec_basename(p@));
            }
            return tail.to_owned();
        }
        k = k - 1;
    }
    proof {
        assert(p@.take(0) =~= Seq::<char>::empty());
        assert(spec_last_slash(p@) == -1);
        assert(p@.skip(0) =~= p@);
    }
    let whole = p.to_owned();
    whole
}

} // verus!
