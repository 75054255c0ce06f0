//! Verified string helpers: character-level equality, prefix, substring
//! search and slash scanning, specified over `Seq<char>` views.

use vstd::prelude::*;

verus! {

/// The pattern `p` occurs in `s` at position `k`.
pub open spec fn matches_at(s: Seq<char>, p: Seq<char>, k: int) -> bool {
    0 <= k && k + p.len() <= s.len() && s.subrange(k, k + p.len()) == p
}

/// The pattern `p` occurs somewhere in `s`.
pub open spec fn contains_seq(s: Seq<char>, p: Seq<char>) -> bool {
    exists|k: int| matches_at(s, p, k)
}

/// Character-for-character string equality.
pub fn str_eq(a: &str, b: &str) -> (r: bool)
    ensures
        r == (a@ == b@),
{
    let na = a.unicode_len();
    let nb = b.unicode_len();
    if na != nb {
        proof {
            assert(a@ != b@);
        }
        return false;
    }
    let mut i: usize = 0;
    while i < na
        invariant
            i <= na,
            na == a@.len(),
            na == b@.len(),
            forall|j: int| 0 <= j < i ==> a@[j] == b@[j],
        decreases na - i,
    {
        if a.get_char(i) != b.get_char(i) {
            return false;
        }
        i = i + 1;
    }
    proof {
        assert(a@ =~= b@);
    }
    true
}

/// Whether the pattern `p` occurs in `s` at position `k`.
pub fn match_at(s: &str, p: &str, k: usize) -> (r: bool)
    requires
        k + p@.len() <= s@.len(),
    ensures
        r == matches_at(s@, p@, k as int),
{
    let n = s.unicode_len();
    let m = p.unicode_len();
    let mut j: usize = 0;
    while j < m
        invariant
            j <= m,
            m == p@.len(),
            n == s@.len(),
            k + m <= n,
            forall|q: int| 0 <= q < j ==> s@[k + q] == p@[q],
        decreases m - j,
    {
        if s.get_char(k + j) != p.get_char(j) {
            proof {
                assert(s@.subrange(k as int, k + p@.len())[j as int] != p@[j as int]);
            }
            return false;
        }
        j = j + 1;
    }
    proof {
        assert(s@.subrange(k as int, k + p@.len()) =~= p@);
    }
    true
}

/// Whether `s` begins with the pattern `p`.
pub fn str_starts_with(s: &str, p: &str) -> (r: bool)
    ensures
        r == p@.is_prefix_of(s@),
{
    let n = s.unicode_len();
    let m = p.unicode_len();
    if m > n {
        proof {
            assert(!p@.is_prefix_of(s@));
        }
        return false;
    }
    let r = match_at(s, p, 0);
    proof {
        assert(s@.subrange(0, p@.len() as int) == s@.take(p@.len() as int));
    }
    r
}

/// Whether the pattern `p` occurs anywhere in `s`.
pub fn str_contains(s: &str, p: &str) -> (r: bool)
    ensures
        r == contains_seq(s@, p@),
{
    let n = s.unicode_len();
    let m = p.unicode_len();
    if m > n {
        proof {
            assert(forall|k: int| !matches_at(s@, p@, k));
        }
        return false;
    }
    let limit = n - m;
    let mut k: usize = 0;
    while k < limit
        invariant
            k <= limit,
            limit == n - m,
            m <= n,
            n == s@.len(),
            m == p@.len(),
            forall|q: int| 0 <= q < k ==> !matches_at(s@, p@, q),
        decreases limit - k,
    {
        if match_at(s, p, k) {
            return true;
        }
        k = k + 1;
    }
    if match_at(s, p, limit) {
        return true;
    }
    proof {
        assert(forall|q: int| q > n - m ==> !matches_at(s@, p@, q));
    }
    false
}

/// The position of the last occurrence of `c` in `s` at or after `from`, if
/// any.
pub fn last_char_at_or_after(s: &str, c: char, from: usize) -> (r: Option<usize>)
    requires
        from <= s@.len(),
    ensures
        r matches Some(i) ==> from <= i < s@.len() && s@[i as int] == c && forall|j: int|
            i < j < s@.len() ==> s@[j] != c,
        r is None ==> forall|j: int| from <= j < s@.len() ==> s@[j] != c,
{
    let n = s.unicode_len();
    let mut i: usize = 0;
    let mut found: Option<usize> = None;
    while from + i < n
        invariant
            from + i <= n,
            n == s@.len(),
            found matches Some(x) ==> from <= x < from + i && s@[x as int] == c && forall|j: int|
                x < j < from + i ==> s@[j] != c,
            found is None ==> forall|j: int| from <= j < from + i ==> s@[j] != c,
        decreases n - from - i,
    {
        if s.get_char(from + i) == c {
            found = Some(from + i);
        }
        i = i + 1;
    }
    found
}

/// The position of the last occurrence of `c` in `s` within `[from, to)`,
/// if any.
pub fn last_char_in_range(s: &str, c: char, from: usize, to: usize) -> (r: Option<usize>)
    requires
        from <= to <= s@.len(),
    ensures
        r matches Some(i) ==> from <= i < to && s@[i as int] == c && forall|j: int|
            i < j < to ==> s@[j] != c,
        r is None ==> forall|j: int| from <= j < to ==> s@[j] != c,
{
    let mut i: usize = 0;
    let mut found: Option<usize> = None;
    while from + i < to
        invariant
            from + i <= to,
            to <= s@.len(),
            found matches Some(x) ==> from <= x < from + i && s@[x as int] == c && forall|j: int|
                x < j < from + i ==> s@[j] != c,
            found is None ==> forall|j: int| from <= j < from + i ==> s@[j] != c,
        decreases to - from - i,
    {
        if s.get_char(from + i) == c {
            found = Some(from + i);
        }
        i = i + 1;
    }
    found
}

/// A fresh `String` holding the characters of `s` between `from` and `to`.
pub fn substring_owned(s: &str, from: usize, to: usize) -> (r: String)
    requires
        from <= to <= s@.len(),
    ensures
        r@ == s@.subrange(from as int, to as int),
{
    let sub = s.substring_char(from, to);
    String::from_str(sub)
}

} // verus!
