//! Query-string parsing, and a small defaulting-getter record.

use vstd::prelude::*;

use crate::strutil::{find_char_from, lemma_find_from_bounds, spec_find_from};

verus! {

/// The key/value pairs of one `&`-separated piece: the text around its
/// first `=`, or nothing when the piece has no `=`.
pub open spec fn spec_piece_pairs(p: Seq<char>) -> Seq<(Seq<char>, Seq<char>)> {
    let e = spec_find_from(p, '=', 0);
    if e == p.len() {
        Seq::empty()
    } else {
        seq![(p.take(e), p.skip(e + 1))]
    }
}

/// The key/value pairs of a query string: pieces split on `&`, each piece
/// split once on its first `=`; a piece without `=` is dropped.
pub open spec fn spec_query_pairs(s: Seq<char>) -> Seq<(Seq<char>, Seq<char>)>
    decreases s.len(),
    via spec_query_pairs_decreases
{
    let a = spec_find_from(s, '&', 0);
    if a == s.len() {
        spec_piece_pairs(s)
    } else {
        spec_piece_pairs(s.take(a)) + spec_query_pairs(s.skip(a + 1))
    }
}

#[via_fn]
proof fn spec_query_pairs_decreases(s: Seq<char>) {
    lemma_find_from_bounds(s, '&', 0);
}

/// The view of a vector of string pairs.
pub open spec fn spec_pairs_view(v: Seq<(String, String)>) -> Seq<(Seq<char>, Seq<char>)> {
    v.map_values(|p: (String, String)| (p.0@, p.1@))
}

/// Searching a suffix mirrors searching the whole from the cut, shifted.
proof fn lemma_find_from_shift(s: Seq<char>, c: char, k: int, i: int)
    requires
        0 <= k <= s.len(),
        0 <= i <= s.len() - k,
    ensures
        spec_find_from(s.skip(k), c, i) == spec_find_from(s, c, k + i) - k,
    decreases s.len() - k - i,
{
    let t = s.skip(k);
    if i >= t.len() {
    } else {
        assert(t[i] == s[k + i]);
        if t[i] == c {
        } else {
            lemma_find_from_shift(s, c, k, i + 1);
        }
    }
}

/// In a prefix that still holds the found position, the search result is
/// unchanged.
proof fn lemma_find_prefix(s: Seq<char>, c: char, m: int, e: int, i: int)
    requires
        0 <= i <= e < m <= s.len(),
        spec_find_from(s, c, i) == e,
    ensures
        spec_find_from(s.take(m), c, i) == e,
    decreases e - i,
{
    let t = s.take(m);
    assert(t[i] == s[i]);
    if s[i] == c {
        assert(spec_find_from(s, c, i) == i);
    } else {
        assert(spec_find_from(s, c, i + 1) == e);
        lemma_find_from_bounds(s, c, i + 1);
        lemma_find_prefix(s, c, m, e, i + 1);
    }
}

/// When the first occurrence lies at or beyond `m`, the prefix of length
/// `m` holds none.
proof fn lemma_find_beyond(s: Seq<char>, c: char, m: int, e: int, i: int)
    requires
        0 <= i <= m <= s.len(),
        m <= e,
        spec_find_from(s, c, i) == e,
    ensures
        spec_find_from(s.take(m), c, i) == m,
    decreases m - i,
{
    let t = s.take(m);
    if i >= m {
    } else {
        assert(t[i] == s[i]);
        if s[i] == c {
            assert(spec_find_from(s, c, i) == i);
        } else {
            lemma_find_beyond(s, c, m, e, i + 1);
        }
    }
}

/// Split a query string on `&` and each piece once on its first `=`;
/// a piece without `=` is dropped. `"a=b&c=d"` gives `[(a, b), (c, d)]`.
pub fn query_split(s: &str) -> (r: Vec<(String, String)>)
    ensures
        spec_pairs_view(r@) == spec_query_pairs(s@),
{
    let n = s.unicode_len();
    let mut r: Vec<(String, String)> = Vec::new();
    let mut pos: usize = 0;
    proof {
        assert(s@.skip(0) =~= s@);
        assert(spec_pairs_view(r@) =~= Seq::<(Seq<char>, Seq<char>)>::empty());
    }
    loop
        invariant_except_break
            n == s@.len(),
            pos <= n,
            spec_query_pairs(s@) == spec_pairs_view(r@) + spec_query_pairs(s@.skip(pos as int)),
        ensures
            spec_pairs_view(r@) == spec_query_pairs(s@),
        decreases n - pos,
    {
        let ghost rest = s@.skip(pos as int);
        let a = find_char_from(s, '&', pos);
        let e = find_char_from(s, '=', pos);
        proof {
            lemma_find_from_shift(s@, '&', pos as int, 0);
            lemma_find_from_shift(s@, '=', pos as int, 0);
            assert(spec_find_from(rest, '&', 0) == a - pos);
            assert(spec_find_from(rest, '=', 0) == e - pos);
        }
        let ghost piece = if a == n { rest } else { rest.take(a - pos) };
        if e < a {
            // the piece up to `a` holds an `=` at `e`
            proof {
                if a < n {
                    lemma_find_prefix(rest, '=', a - pos, e - pos, 0);
                }
                assert(spec_find_from(piece, '=', 0) == e - pos);
            }
            let key = s.substring_char(pos, e);
            let val = s.substring_char(e + 1, a);
            proof {
                assert(key@ =~= piece.take(e - pos));
                assert(val@ =~= piece.skip(e - pos + 1));
                assert(spec_piece_pairs(piece) =~= seq![(key@, val@)]);
            }
            let ghost r_old = r@;
            let pair = (key.to_owned(), val.to_owned());
            r.push(pair);
            proof {
                assert(spec_pairs_view(r@) =~= spec_pairs_view(r_old) + spec_piece_pairs(piece));
            }
        } else {
            proof {
                if a < n {
                    lemma_find_beyond(rest, '=', a - pos, e - pos, 0);
                }
                assert(spec_find_from(piece, '=', 0) == piece.len());
                assert(spec_piece_pairs(piece) =~= Seq::<(Seq<char>, Seq<char>)>::empty());
                assert(spec_pairs_view(r@) =~= spec_pairs_view(r@) + spec_piece_pairs(piece));
            }
        }
        if a == n {
            proof {
                assert(spec_query_pairs(rest) == spec_piece_pairs(piece));
                assert(spec_query_pairs(s@) =~= spec_pairs_view(r@));
            }
            break;
        }
        proof {
            assert(rest.skip(a - pos + 1) =~= s@.skip(a + 1));
            assert(spec_query_pairs(rest) == spec_piece_pairs(piece) + spec_query_pairs(
                s@.skip(a + 1),
            ));
            assert(spec_query_pairs(s@) =~= spec_pairs_view(r@) + spec_query_pairs(
                s@.skip(a + 1),
            ));
        }
        pos = a + 1;
    }
    r
}

/// Split an optional query string: absent means no pairs.
pub fn query_split_opt(s: Option<&str>) -> (r: Vec<(String, String)>)
    ensures
        match s {
            Some(q) => spec_pairs_view(r@) == spec_query_pairs(q@),
            None => r@.len() == 0,
        },
{
    match s {
        Some(q) => query_split(q),
        None => Vec::new(),
    }
}

/// A record whose getter falls back to a fixed value.
pub struct Thing {
    pub field: Option<u8>,
}

impl Thing {
    /// The held value, or three when none is held.
    pub fn field(&self) -> (r: u8)
        ensures
            r == match self.field {
                Some(v) => v,
                None => 3u8,
            },
    {
        match self.field {
            Some(f) => f,
            None => 3,
        }
    }
}

} // verus!
