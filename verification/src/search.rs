//! The first element of a sequence of which a given predicate holds.

use vstd::prelude::*;

verus! {

/// Whether `i` is the index of the first element of `s` that satisfies `p`,
/// or the length of `s` when no element does.
pub open spec fn is_first_where<T>(s: Seq<T>, p: spec_fn(T) -> bool, i: int) -> bool {
    &&& 0 <= i <= s.len()
    &&& i < s.len() ==> p(s[i])
    &&& forall|j: int| 0 <= j < i ==> !p(#[trigger] s[j])
}

/// The index of the first element of `s` that satisfies `p`, or the length
/// of `s`.
pub open spec fn first_where<T>(s: Seq<T>, p: spec_fn(T) -> bool) -> int {
    let i = choose|i: int| #[trigger] is_first_where(s, p, i);
    if 0 <= i <= s.len() {
        i
    } else {
        s.len() as int
    }
}

/// `is_first_where` holds of one index only, so it determines `first_where`.
pub proof fn lemma_first_where<T>(s: Seq<T>, p: spec_fn(T) -> bool, i: int)
    requires
        is_first_where(s, p, i),
    ensures
        first_where(s, p) == i,
{
}

/// `first_where` is an index as `is_first_where` describes it.
pub proof fn lemma_first_where_is_first<T>(s: Seq<T>, p: spec_fn(T) -> bool)
    ensures
        is_first_where(s, p, first_where(s, p)),
{
    lemma_first_exists(s, p, s.len() as int);
}

/// Among the first `n` elements there is a first one that satisfies `p`, or
/// none of them does.
proof fn lemma_first_exists<T>(s: Seq<T>, p: spec_fn(T) -> bool, n: int)
    requires
        0 <= n <= s.len(),
    ensures
        exists|i: int| #[trigger] is_first_where(s.take(n), p, i),
        n == s.len() ==> exists|i: int| #[trigger] is_first_where(s, p, i),
    decreases n,
{
    if n == 0 {
        assert(is_first_where(s.take(0), p, 0));
    } else {
        lemma_first_exists(s, p, n - 1);
        let i = choose|i: int| #[trigger] is_first_where(s.take(n - 1), p, i);
        if i < n - 1 {
            assert(is_first_where(s.take(n), p, i));
        } else if !p(s.take(n)[n - 1]) {
            assert(is_first_where(s.take(n), p, n));
        }
    }
    if n == s.len() {
        assert(s.take(n) =~= s);
    }
}

/// Whether no element of `s` occurs twice.
pub open spec fn all_distinct<T>(s: Seq<T>) -> bool {
    forall|i: int, j: int| 0 <= i < j < s.len() ==> s[i] != s[j]
}

} // verus!
