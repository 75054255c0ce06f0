//! Stored-size estimation for document contents, following the store's
//! documented per-kind sizes: fixed eight bytes for times and numbers, five
//! bytes per character for strings.

use vstd::prelude::*;
use crate::value::FTimestamp;

verus! {

/// The stored size of a timestamp.
pub fn datetime_size(_s: &FTimestamp) -> (r: usize)
    ensures
        r == 8,
{
    8
}

/// The stored size of an optional timestamp; an absent one takes nothing.
pub fn datetime_size_opt(v: &Option<FTimestamp>) -> (r: usize)
    ensures
        r == (match v {
            Some(_) => 8int,
            None => 0int,
        }),
{
    match v {
        Some(vs) => datetime_size(vs),
        None => 0,
    }
}

/// The stored size of an index-sized integer.
pub fn usize_size(_s: &usize) -> (r: usize)
    ensures
        r == 8,
{
    8
}

/// The stored size of a string: five bytes per character.
pub fn string_size(s: &str) -> (r: usize)
    requires
        s@.len() * 5 <= usize::MAX,
    ensures
        r == s@.len() * 5,
{
    s.unicode_len() * 5
}

/// The stored size of a 64-bit integer.
pub fn number_size(_v: &i64) -> (r: usize)
    ensures
        r == 8,
{
    8
}

/// The stored size of an optional string; an absent one takes nothing.
pub fn string_size_opt(v: &Option<String>) -> (r: usize)
    requires
        v matches Some(s) ==> s@.len() * 5 <= usize::MAX,
    ensures
        r == (match v {
            Some(s) => s@.len() * 5int,
            None => 0int,
        }),
{
    match v {
        Some(s) => string_size(s.as_str()),
        None => 0,
    }
}

/// The summed stored sizes of a list of strings.
pub open spec fn string_sizes_sum(s: Seq<Seq<char>>) -> int
    decreases s,
{
    if s.len() == 0 {
        0
    } else {
        string_sizes_sum(s.drop_last()) + s.last().len() * 5
    }
}

/// The stored size of a list of strings: the sum of their sizes.
pub fn string_size_vec(vs: &Vec<String>) -> (r: usize)
    requires
        string_sizes_sum(crate::request::strings_view(vs@)) <= usize::MAX,
    ensures
        r == string_sizes_sum(crate::request::strings_view(vs@)),
{
    let ghost sv: Seq<Seq<char>> = crate::request::strings_view(vs@);
    proof {
        lemma_string_sizes_sum_nonneg_prefixes(sv);
    }
    let n = vs.len();
    let mut total: usize = 0;
    let mut i: usize = 0;
    while i < n
        invariant
            i <= n,
            n == vs@.len(),
            sv == crate::request::strings_view(vs@),
            sv.len() == n,
            forall|j: int| 0 <= j < n ==> sv[j] == vs@[j]@,
            total == string_sizes_sum(sv.take(i as int)),
            string_sizes_sum(sv) <= usize::MAX,
            forall|j: int|
                0 <= j <= n ==> #[trigger] string_sizes_sum(sv.take(j)) <= string_sizes_sum(sv),
            forall|j: int| 0 <= j <= n ==> 0 <= #[trigger] string_sizes_sum(sv.take(j)),
        decreases n - i,
    {
        proof {
            assert(sv.take(i + 1).drop_last() =~= sv.take(i as int));
            assert(sv.take(i + 1).last() == sv[i as int]);
            assert(string_sizes_sum(sv.take(i + 1)) == string_sizes_sum(sv.take(i as int))
                + sv[i as int].len() * 5);
        }
        total = total + string_size(vs[i].as_str());
        i = i + 1;
    }
    proof {
        assert(sv.take(n as int) =~= sv);
    }
    total
}

/// Every prefix sum of string sizes is non-negative and at most the whole
/// sum.
proof fn lemma_string_sizes_sum_nonneg_prefixes(s: Seq<Seq<char>>)
    ensures
        forall|j: int| 0 <= j <= s.len() ==> 0 <= #[trigger] string_sizes_sum(s.take(j)),
        forall|j: int|
            0 <= j <= s.len() ==> #[trigger] string_sizes_sum(s.take(j)) <= string_sizes_sum(s),
    decreases s,
{
    if s.len() > 0 {
        lemma_string_sizes_sum_nonneg_prefixes(s.drop_last());
        assert forall|j: int|
            0 <= j <= s.len() implies 0 <= #[trigger] string_sizes_sum(s.take(j))
                && string_sizes_sum(s.take(j)) <= string_sizes_sum(s) by {
            assert(string_sizes_sum(s) == string_sizes_sum(s.drop_last()) + s.last().len() * 5);
            if j < s.len() {
                assert(s.take(j) =~= s.drop_last().take(j));
                assert(0 <= string_sizes_sum(s.drop_last().take(j)));
                assert(string_sizes_sum(s.drop_last().take(j)) <= string_sizes_sum(
                    s.drop_last(),
                ));
            } else {
                assert(s.take(j) =~= s);
                assert(s.drop_last() =~= s.drop_last().take(s.drop_last().len() as int));
                assert(0 <= string_sizes_sum(s.drop_last().take(s.drop_last().len() as int)));
            }
        }
    } else {
        assert forall|j: int| 0 <= j <= s.len() implies 0 <= #[trigger] string_sizes_sum(
            s.take(j),
        ) && string_sizes_sum(s.take(j)) <= string_sizes_sum(s) by {
            assert(s.take(j) =~= s);
        }
    }
}

/// The stored size of an optional list of strings; an absent one takes
/// nothing.
pub fn string_size_vec_opt(v: &Option<Vec<String>>) -> (r: usize)
    requires
        v matches Some(vs) ==> string_sizes_sum(crate::request::strings_view(vs@))
            <= usize::MAX,
    ensures
        r == (match v {
            Some(vs) => string_sizes_sum(crate::request::strings_view(vs@)),
            None => 0int,
        }),
{
    match v {
        Some(vs) => string_size_vec(vs),
        None => 0,
    }
}

} // verus!
